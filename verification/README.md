# agon_libretro_core

A libretro core for the Agon Light (Console8) computer, written in Verus.

* `src/` is the verified library: conversion of the VDP's 24-bit frames to
  640×480 RGB565 (`video`), of its 8-bit audio to interleaved stereo 16-bit
  samples (`audio`), the PS/2 keyboard map and the tracking of held keys
  (`keyboard`), where the firmware, the SD card directory and the VDP module
  are looked for (`paths`), the report of a failed VDP search (`loader`), and
  the core's load, reset, run and unload life cycle (`core_state`).
* `app/` is the libretro core proper: it opens the native VDP module, starts
  its thread, builds the emulated eZ80 machine, and talks to the frontend,
  calling the library for every decision and conversion.
* `tests/` exercises the library on concrete values.
