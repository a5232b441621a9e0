use crate::audio::{convert_audio, spec_sample_to_i16, AUDIO_FRAMES_PER_VIDEO_FRAME};
use crate::keyboard::{
    key_events, keyboard_map, pressed_after, spec_keymap_entry, KeyEvent, Keyboard, KEYBOARD_MAP_LEN,
};
use crate::video::{
    convert_frame, pixels_to_bytes, source_covers, spec_frame_pixel, spec_pixel_bytes, HEIGHT, WIDTH,
};
use vstd::prelude::*;

verus! {

/// Clock speed of the emulated eZ80 in hertz.
pub const CLOCK_SPEED_HZ: u64 = 18_432_000;

/// CPU cycles emulated for each 60 Hz video frame.
pub const CLOCKS_PER_FRAME: u64 = 18_432_000 / 60;

/// Interleaved stereo samples handed to the frontend for each video frame.
pub const AUDIO_SAMPLES_PER_VIDEO_FRAME: usize = 2 * AUDIO_FRAMES_PER_VIDEO_FRAME;

/// Bytes of the scratch buffer into which the VDP copies its 24-bit frame
/// (large enough for a 1024 by 768 mode).
pub const VDP_FRAMEBUFFER_LEN: usize = 1024 * 768 * 3;

/// Abstract state of the core: the running machine `M`, the loaded VDP `V`,
/// the output frame and audio block, the content path `P` that resets boot
/// with, the game data `G` handed over by the frontend, and the held keys.
pub struct CoreView<M, V, G, P> {
    pub running: Option<M>,
    pub vdp: Option<V>,
    pub framebuffer: Seq<u16>,
    pub audio: Seq<i16>,
    pub staged_game: Option<P>,
    pub loaded_game: Option<G>,
    pub pressed_keys: Set<u32>,
}

/// State of the libretro core between frontend calls.
pub struct AgonLibretroCore<M, V, G, P> {
    running: Option<M>,
    vdp: Option<V>,
    framebuffer: Vec<u16>,
    audio: Vec<i16>,
    staged_game: Option<P>,
    loaded_game: Option<G>,
    keyboard: Keyboard,
}

impl<M, V, G, P> View for AgonLibretroCore<M, V, G, P> {
    type V = CoreView<M, V, G, P>;

    closed spec fn view(&self) -> CoreView<M, V, G, P> {
        CoreView {
            running: self.running,
            vdp: self.vdp,
            framebuffer: self.framebuffer@,
            audio: self.audio@,
            staged_game: self.staged_game,
            loaded_game: self.loaded_game,
            pressed_keys: self.keyboard@,
        }
    }
}

/// The state of a freshly created core: nothing loaded, a black frame,
/// silence, and no key held.
pub open spec fn initial_view<M, V, G, P>() -> CoreView<M, V, G, P> {
    CoreView {
        running: None,
        vdp: None,
        framebuffer: Seq::new((WIDTH * HEIGHT) as nat, |i: int| 0u16),
        audio: Seq::new(AUDIO_SAMPLES_PER_VIDEO_FRAME as nat, |i: int| 0i16),
        staged_game: None,
        loaded_game: None,
        pressed_keys: Set::empty(),
    }
}

/// The VDP `vdp` is loaded for the content at `content`, which later resets
/// boot with.
pub open spec fn attach_vdp_view<M, V, G, P>(
    s: CoreView<M, V, G, P>,
    vdp: V,
    content: Option<P>,
) -> CoreView<M, V, G, P> {
    CoreView { vdp: Some(vdp), staged_game: content, ..s }
}

/// The machine `machine` replaces the running one.
pub open spec fn reset_view<M, V, G, P>(s: CoreView<M, V, G, P>, machine: M) -> CoreView<
    M,
    V,
    G,
    P,
> {
    CoreView { running: Some(machine), ..s }
}

/// The frontend's game data `game` is kept until the game is unloaded.
pub open spec fn finish_load_view<M, V, G, P>(s: CoreView<M, V, G, P>, game: G) -> CoreView<
    M,
    V,
    G,
    P,
> {
    CoreView { loaded_game: Some(game), ..s }
}

/// The machine and the VDP are stopped and the game data is handed back.
pub open spec fn unload_view<M, V, G, P>(s: CoreView<M, V, G, P>) -> CoreView<M, V, G, P> {
    CoreView { running: None, vdp: None, loaded_game: None, ..s }
}

/// Whether a frame runs the machine: only when both a machine and a VDP are
/// there.
pub open spec fn frame_ready_view<M, V, G, P>(s: CoreView<M, V, G, P>) -> bool {
    s.running is Some && s.vdp is Some
}

/// The output frame and the audio block have their fixed sizes.
pub open spec fn buffers_sized<M, V, G, P>(s: CoreView<M, V, G, P>) -> bool {
    &&& s.framebuffer.len() == WIDTH * HEIGHT
    &&& s.audio.len() == AUDIO_SAMPLES_PER_VIDEO_FRAME
}

/// The keyboard step of a frame: with a VDP loaded, the keyboard map is
/// scanned with `key_states`; without one, nothing changes.
pub open spec fn keyboard_step_view<M, V, G, P>(
    s: CoreView<M, V, G, P>,
    key_states: Seq<bool>,
) -> CoreView<M, V, G, P> {
    if s.vdp is Some {
        CoreView {
            pressed_keys: pressed_after(
                keyboard_map(),
                key_states,
                s.pressed_keys,
                KEYBOARD_MAP_LEN as nat,
            ),
            ..s
        }
    } else {
        s
    }
}

/// The key events of the keyboard step: none without a VDP.
pub open spec fn keyboard_step_events<M, V, G, P>(
    s: CoreView<M, V, G, P>,
    key_states: Seq<bool>,
) -> Seq<KeyEvent> {
    if s.vdp is Some {
        key_events(keyboard_map(), key_states, s.pressed_keys, KEYBOARD_MAP_LEN as nat)
    } else {
        Seq::empty()
    }
}

/// The video step of a frame: with a VDP loaded, its frame `source`, `width`
/// by `height` pixels, becomes the output frame; without one, nothing changes.
pub open spec fn video_step_view<M, V, G, P>(
    s: CoreView<M, V, G, P>,
    source: Seq<u8>,
    width: u32,
    height: u32,
) -> CoreView<M, V, G, P> {
    if s.vdp is Some {
        CoreView {
            framebuffer: Seq::new(
                (WIDTH * HEIGHT) as nat,
                |i: int| spec_frame_pixel(source, width, height, i),
            ),
            ..s
        }
    } else {
        s
    }
}

/// The audio step of a frame: with a VDP loaded, its 8-bit samples become
/// the stereo audio block; without one, nothing changes.
pub open spec fn audio_step_view<M, V, G, P>(s: CoreView<M, V, G, P>, samples: Seq<u8>) -> CoreView<
    M,
    V,
    G,
    P,
> {
    if s.vdp is Some {
        CoreView {
            audio: Seq::new(
                AUDIO_SAMPLES_PER_VIDEO_FRAME as nat,
                |i: int| spec_sample_to_i16(samples[i / 2]),
            ),
            ..s
        }
    } else {
        s
    }
}

impl<M, V, G, P> AgonLibretroCore<M, V, G, P> {
    /// The output frame and the audio block always have their fixed sizes.
    #[verifier::type_invariant]
    spec fn sized(self) -> bool {
        &&& self.framebuffer@.len() == WIDTH * HEIGHT
        &&& self.audio@.len() == AUDIO_SAMPLES_PER_VIDEO_FRAME
    }

    /// A core with nothing loaded, a black frame, silence and no key held.
    pub fn new() -> (r: Self)
        ensures
            r@ == initial_view::<M, V, G, P>(),
            buffers_sized(r@),
    {
        let mut framebuffer: Vec<u16> = Vec::new();
        let mut i: usize = 0;
        while i < WIDTH * HEIGHT
            invariant
                i <= WIDTH * HEIGHT,
                framebuffer@ == Seq::new(i as nat, |j: int| 0u16),
            decreases WIDTH * HEIGHT - i,
        {
            framebuffer.push(0);
            i = i + 1;
            assert(framebuffer@ =~= Seq::new(i as nat, |j: int| 0u16));
        }
        let mut audio: Vec<i16> = Vec::new();
        let mut k: usize = 0;
        while k < AUDIO_SAMPLES_PER_VIDEO_FRAME
            invariant
                k <= AUDIO_SAMPLES_PER_VIDEO_FRAME,
                audio@ == Seq::new(k as nat, |j: int| 0i16),
            decreases AUDIO_SAMPLES_PER_VIDEO_FRAME - k,
        {
            audio.push(0);
            k = k + 1;
            assert(audio@ =~= Seq::new(k as nat, |j: int| 0i16));
        }
        AgonLibretroCore {
            running: None,
            vdp: None,
            framebuffer,
            audio,
            staged_game: None,
            loaded_game: None,
            keyboard: Keyboard::new(),
        }
    }

    /// Takes over a VDP that has just been started for a game whose content
    /// is at `content` (`None` when the game is started without content).
    pub fn attach_vdp(&mut self, vdp: V, content: Option<P>)
        ensures
            final(self)@ == attach_vdp_view(old(self)@, vdp, content),
            buffers_sized(final(self)@),
    {
        proof {
            use_type_invariant(&*self);
        }
        self.vdp = Some(vdp);
        self.staged_game = content;
    }

    /// Replaces the running machine with `machine`, built for the VDP that is
    /// loaded. A reset without a VDP is not allowed.
    pub fn reset_machine(&mut self, machine: M)
        requires
            old(self)@.vdp is Some,
        ensures
            final(self)@ == reset_view(old(self)@, machine),
            buffers_sized(final(self)@),
    {
        proof {
            use_type_invariant(&*self);
        }
        self.running = Some(machine);
    }

    /// Keeps the frontend's game data until the game is unloaded.
    pub fn finish_load(&mut self, game: G)
        ensures
            final(self)@ == finish_load_view(old(self)@, game),
            buffers_sized(final(self)@),
    {
        proof {
            use_type_invariant(&*self);
        }
        self.loaded_game = Some(game);
    }

    /// Stops the machine, then the VDP, and hands back the game data, if a
    /// game was loaded.
    pub fn unload_game(&mut self) -> (game: Option<G>)
        ensures
            final(self)@ == unload_view(old(self)@),
            game == old(self)@.loaded_game,
            buffers_sized(final(self)@),
    {
        proof {
            use_type_invariant(&*self);
        }
        self.running = None;
        self.vdp = None;
        let mut game: Option<G> = None;
        std::mem::swap(&mut game, &mut self.loaded_game);
        game
    }

    /// Whether the frontend's game data is held, that is, a game is loaded.
    pub fn game_loaded(&self) -> (r: bool)
        ensures
            r == self@.loaded_game is Some,
    {
        self.loaded_game.is_some()
    }

    /// Whether a VDP is loaded, so that a frame scans the keyboard and copies
    /// video and audio.
    pub fn vdp_loaded(&self) -> (r: bool)
        ensures
            r == self@.vdp is Some,
    {
        self.vdp.is_some()
    }

    /// The loaded VDP, if any.
    pub fn vdp(&self) -> (r: Option<&V>)
        ensures
            match r {
                Some(v) => self@.vdp == Some(*v),
                None => self@.vdp is None,
            },
    {
        self.vdp.as_ref()
    }

    /// The content path that resets boot with, if any.
    pub fn staged_game(&self) -> (r: Option<&P>)
        ensures
            match r {
                Some(p) => self@.staged_game == Some(*p),
                None => self@.staged_game is None,
            },
    {
        self.staged_game.as_ref()
    }

    /// Access to the running machine, if any; nothing else changes.
    pub fn machine_mut(&mut self) -> (r: Option<&mut M>)
        ensures
            match r {
                Some(m) => {
                    &&& old(self)@.running == Some(*m)
                    &&& final(self)@ == (CoreView { running: Some(*final(m)), ..old(self)@ })
                },
                None => {
                    &&& old(self)@.running is None
                    &&& final(self)@ == old(self)@
                },
            },
            buffers_sized(final(self)@),
    {
        proof {
            use_type_invariant(&*self);
        }
        slot_mut(&mut self.running)
    }

    /// Whether a frame runs the machine.
    pub fn frame_ready(&self) -> (r: bool)
        ensures
            r == frame_ready_view(self@),
    {
        self.running.is_some() && self.vdp.is_some()
    }

    /// Whether the key with libretro key code `keycode` is held down.
    pub fn is_key_pressed(&self, keycode: u32) -> (r: bool)
        ensures
            r == self@.pressed_keys.contains(keycode),
    {
        self.keyboard.is_pressed(keycode)
    }

    /// The keyboard step of a frame: with a VDP loaded, scans the keyboard
    /// map with the libretro key states `key_states` and returns the PS/2
    /// events to send to the VDP; without one, returns no event and changes
    /// nothing (the key states are then not looked at).
    pub fn update_keyboard(&mut self, key_states: &[bool]) -> (events: Vec<KeyEvent>)
        requires
            old(self)@.vdp is Some ==> key_states@.len() == KEYBOARD_MAP_LEN,
        ensures
            final(self)@ == keyboard_step_view(old(self)@, key_states@),
            events@ == keyboard_step_events(old(self)@, key_states@),
            buffers_sized(final(self)@),
    {
        proof {
            use_type_invariant(&*self);
        }
        if self.vdp.is_none() {
            return Vec::new();
        }
        let mut keyboard = Keyboard::new();
        std::mem::swap(&mut keyboard, &mut self.keyboard);
        let events = keyboard.update(key_states);
        self.keyboard = keyboard;
        events
    }

    /// The video step of a frame: with a VDP loaded, converts its frame
    /// `source`, `width` by `height` pixels, into the output frame; without
    /// one, the output frame is left as it was.
    pub fn copy_video(&mut self, source: &Vec<u8>, width: u32, height: u32)
        requires
            old(self)@.vdp is Some ==> source_covers(source@.len() as int, width, height),
        ensures
            final(self)@ == video_step_view(old(self)@, source@, width, height),
            buffers_sized(final(self)@),
    {
        proof {
            use_type_invariant(&*self);
        }
        if self.vdp.is_none() {
            return;
        }
        convert_frame(source, width, height, &mut self.framebuffer);
        assert(self.framebuffer@ =~= Seq::new(
            (WIDTH * HEIGHT) as nat,
            |i: int| spec_frame_pixel(source@, width, height, i),
        ));
    }

    /// The audio step of a frame: with a VDP loaded, converts one video
    /// frame's worth of its 8-bit samples into the interleaved stereo audio
    /// block; without one, the audio block is left as it was.
    pub fn copy_audio(&mut self, samples: &Vec<u8>)
        requires
            old(self)@.vdp is Some ==> samples@.len() == AUDIO_FRAMES_PER_VIDEO_FRAME,
        ensures
            final(self)@ == audio_step_view(old(self)@, samples@),
            buffers_sized(final(self)@),
    {
        proof {
            use_type_invariant(&*self);
        }
        if self.vdp.is_none() {
            return;
        }
        convert_audio(samples, &mut self.audio);
        assert forall|i: int| 0 <= i < AUDIO_SAMPLES_PER_VIDEO_FRAME implies #[trigger] self.audio@[i]
            == spec_sample_to_i16(samples@[i / 2]) by {
            let f = i / 2;
            assert(i == 2 * f || i == 2 * f + 1);
            assert(self.audio@[2 * f] == spec_sample_to_i16(samples@[f]));
        }
        assert(self.audio@ =~= Seq::new(
            AUDIO_SAMPLES_PER_VIDEO_FRAME as nat,
            |i: int| spec_sample_to_i16(samples@[i / 2]),
        ));
    }

    /// The output frame, row by row.
    pub fn framebuffer(&self) -> (r: &[u16])
        ensures
            r@ == self@.framebuffer,
            buffers_sized(self@),
    {
        proof {
            use_type_invariant(self);
        }
        self.framebuffer.as_slice()
    }

    /// The bytes of the output frame as the frontend reads them, low byte of
    /// each pixel first when `little_endian`.
    pub fn video_bytes(&self, little_endian: bool) -> (r: Vec<u8>)
        ensures
            r@ == spec_pixel_bytes(self@.framebuffer, little_endian),
            buffers_sized(self@),
    {
        proof {
            use_type_invariant(self);
        }
        pixels_to_bytes(self.framebuffer.as_slice(), little_endian)
    }

    /// The interleaved stereo audio block of the last frame.
    pub fn audio(&self) -> (r: &[i16])
        ensures
            r@ == self@.audio,
            buffers_sized(self@),
    {
        proof {
            use_type_invariant(self);
        }
        self.audio.as_slice()
    }
}

/// Access to the value held in `slot`, if any.
fn slot_mut<T>(slot: &mut Option<T>) -> (r: Option<&mut T>)
    ensures
        match r {
            Some(x) => {
                &&& *old(slot) == Some(*x)
                &&& *final(slot) == Some(*final(x))
            },
            None => {
                &&& *old(slot) is None
                &&& *final(slot) is None
            },
        },
    no_unwind
{
    match slot {
        Some(x) => Some(x),
        None => None,
    }
}

impl<M, V, G, P> Default for AgonLibretroCore<M, V, G, P> {
    /// A core with nothing loaded, a black frame, silence and no key held.
    fn default() -> (r: Self)
        ensures
            r@ == initial_view::<M, V, G, P>(),
            buffers_sized(r@),
    {
        Self::new()
    }
}

/// Law: a game loaded and then unloaded hands back the game data it was
/// loaded with and leaves neither a machine nor a VDP, so that later frames do
/// not run the machine; the content path stays for a later reset.
pub proof fn law_load_then_unload<M, V, G, P>(
    s: CoreView<M, V, G, P>,
    vdp: V,
    machine: M,
    content: Option<P>,
    game: G,
)
    ensures
        ({
            let loaded = finish_load_view(reset_view(attach_vdp_view(s, vdp, content), machine), game);
            let unloaded = unload_view(loaded);
            &&& frame_ready_view(loaded)
            &&& loaded.loaded_game == Some(game)
            &&& unloaded.running is None
            &&& unloaded.vdp is None
            &&& unloaded.loaded_game is None
            &&& unloaded.staged_game == content
            &&& !frame_ready_view(unloaded)
            &&& unloaded.framebuffer == s.framebuffer
            &&& unloaded.audio == s.audio
            &&& unloaded.pressed_keys == s.pressed_keys
        }),
{
}

/// Law: a reset replaces only the running machine; the VDP, the content path
/// it boots with, the game data, the frame, the audio and the held keys stay.
pub proof fn law_reset_replaces_only_the_machine<M, V, G, P>(s: CoreView<M, V, G, P>, machine: M)
    ensures
        ({
            let r = reset_view(s, machine);
            &&& r.running == Some(machine)
            &&& r.vdp == s.vdp
            &&& r.staged_game == s.staged_game
            &&& r.loaded_game == s.loaded_game
            &&& r.framebuffer == s.framebuffer
            &&& r.audio == s.audio
            &&& r.pressed_keys == s.pressed_keys
        }),
{
}

/// Law: resetting twice is the same as resetting once with the later machine.
pub proof fn law_reset_twice<M, V, G, P>(s: CoreView<M, V, G, P>, first: M, second: M)
    ensures
        reset_view(reset_view(s, first), second) == reset_view(s, second),
{
}

/// Law: a fresh core and an unloaded one never run the machine.
pub proof fn law_idle_without_game<M, V, G, P>(s: CoreView<M, V, G, P>)
    ensures
        !frame_ready_view(initial_view::<M, V, G, P>()),
        !frame_ready_view(unload_view(s)),
{
}

/// Law: without a loaded VDP a frame scans no key, sends no key event, and
/// leaves the held keys, the output frame and the audio block as they were,
/// whatever the key states, VDP frame or samples would have been.
pub proof fn law_frame_without_vdp_changes_nothing<M, V, G, P>(
    s: CoreView<M, V, G, P>,
    key_states: Seq<bool>,
    source: Seq<u8>,
    width: u32,
    height: u32,
    samples: Seq<u8>,
)
    requires
        s.vdp is None,
    ensures
        !frame_ready_view(s),
        keyboard_step_view(s, key_states) == s,
        keyboard_step_events(s, key_states) == Seq::<KeyEvent>::empty(),
        video_step_view(s, source, width, height) == s,
        audio_step_view(s, samples) == s,
{
}

/// Law: a fresh core runs no machine, and a frame run on it leaves it as it
/// is and hands the frontend a block of silence and a black frame.
pub proof fn law_fresh_core_outputs_silence_and_black<M, V, G, P>(
    key_states: Seq<bool>,
    source: Seq<u8>,
    width: u32,
    height: u32,
    samples: Seq<u8>,
    little_endian: bool,
)
    ensures
        ({
            let s = initial_view::<M, V, G, P>();
            let after = audio_step_view(
                video_step_view(keyboard_step_view(s, key_states), source, width, height),
                samples,
            );
            &&& !frame_ready_view(s)
            &&& keyboard_step_events(s, key_states) == Seq::<KeyEvent>::empty()
            &&& after == s
            &&& after.audio == Seq::new(AUDIO_SAMPLES_PER_VIDEO_FRAME as nat, |i: int| 0i16)
            &&& spec_pixel_bytes(after.framebuffer, little_endian) == Seq::new(
                (2 * WIDTH * HEIGHT) as nat,
                |i: int| 0u8,
            )
        }),
{
    let s = initial_view::<M, V, G, P>();
    assert(spec_pixel_bytes(s.framebuffer, little_endian) =~= Seq::new(
        (2 * WIDTH * HEIGHT) as nat,
        |i: int| 0u8,
    ));
}

/// Law: every change the core goes through keeps the output frame at
/// 640 by 480 pixels and the audio block at one frame of stereo samples.
pub proof fn law_buffer_sizes_are_kept<M, V, G, P>(
    s: CoreView<M, V, G, P>,
    vdp: V,
    machine: M,
    content: Option<P>,
    game: G,
    key_states: Seq<bool>,
    source: Seq<u8>,
    width: u32,
    height: u32,
    samples: Seq<u8>,
)
    requires
        buffers_sized(s),
    ensures
        buffers_sized(initial_view::<M, V, G, P>()),
        buffers_sized(attach_vdp_view(s, vdp, content)),
        buffers_sized(reset_view(s, machine)),
        buffers_sized(finish_load_view(s, game)),
        buffers_sized(unload_view(s)),
        buffers_sized(keyboard_step_view(s, key_states)),
        buffers_sized(video_step_view(s, source, width, height)),
        buffers_sized(audio_step_view(s, samples)),
{
}

/// Law: with a VDP loaded, the audio step turns one video frame's 800 mono
/// samples into 1600 interleaved stereo samples: frame `f` is at positions
/// `2 * f` (left) and `2 * f + 1` (right), both holding sample `f` centred on
/// 127 and scaled by 256 (255, whose scaled value does not fit, wraps to the
/// most negative sample). Nothing else in the core changes.
pub proof fn law_audio_step_interleaves<M, V, G, P>(s: CoreView<M, V, G, P>, samples: Seq<u8>, f: int)
    requires
        s.vdp is Some,
        samples.len() == AUDIO_FRAMES_PER_VIDEO_FRAME,
        0 <= f < 800,
    ensures
        ({
            let a = audio_step_view(s, samples);
            &&& a.audio.len() == 1600
            &&& a.audio[2 * f] == a.audio[2 * f + 1]
            &&& samples[f] != 255 ==> a.audio[2 * f] as int == (samples[f] as int - 127) * 256
            &&& samples[f] == 255 ==> a.audio[2 * f] == i16::MIN
            &&& a == (CoreView { audio: a.audio, ..s })
        }),
{
    crate::audio::law_sample_scale(samples[f]);
    assert((2 * f) / 2 == f);
    assert((2 * f + 1) / 2 == f);
}

/// Law: with a VDP loaded, the video step repaints the whole 640 by 480
/// output frame: pixel (`x`, `y`) inside the corner shared with the `width`
/// by `height` VDP frame is the RGB565 packing of VDP pixel (`x`, `y`), whose
/// bytes are at `(y * width + x) * 3`, and every other pixel is black.
/// Nothing else in the core changes.
pub proof fn law_video_step_converts<M, V, G, P>(
    s: CoreView<M, V, G, P>,
    source: Seq<u8>,
    width: u32,
    height: u32,
    y: int,
    x: int,
)
    requires
        s.vdp is Some,
        0 <= y < 480,
        0 <= x < 640,
    ensures
        ({
            let after = video_step_view(s, source, width, height);
            let o = (y * width + x) * 3;
            &&& after.framebuffer.len() == 640 * 480
            &&& (y < height && x < width) ==> after.framebuffer[y * 640 + x] as int == (
            source[o] as int / 8) * 2048 + (source[o + 1] as int / 4) * 32 + source[o + 2] as int
                / 8
            &&& (y >= height || x >= width) ==> after.framebuffer[y * 640 + x] == 0
            &&& after == (CoreView { framebuffer: after.framebuffer, ..s })
        }),
{
    if y < height && x < width {
        crate::video::law_frame_copies_shared_corner(source, width, height, y, x);
    } else {
        crate::video::law_frame_black_outside_corner(source, width, height, y, x);
    }
}

/// Law: with a VDP loaded, the keyboard step leaves each mapped key held
/// exactly when its new state is down, leaves every key code that is not in
/// the map as it was, and changes nothing else in the core.
pub proof fn law_keyboard_step_tracks_keys<M, V, G, P>(s: CoreView<M, V, G, P>, key_states: Seq<bool>)
    requires
        s.vdp is Some,
        key_states.len() == KEYBOARD_MAP_LEN,
    ensures
        ({
            let after = keyboard_step_view(s, key_states);
            &&& forall|i: int|
                0 <= i < 81 ==> after.pressed_keys.contains(
                    (#[trigger] spec_keymap_entry(i)).0,
                ) == key_states[i]
            &&& forall|k: u32|
                (forall|i: int| 0 <= i < 81 ==> (#[trigger] spec_keymap_entry(i)).0 != k) ==> (
                after.pressed_keys.contains(k) == s.pressed_keys.contains(k))
            &&& after == (CoreView { pressed_keys: after.pressed_keys, ..s })
        }),
{
    crate::keyboard::law_scan_tracks_keys(s.pressed_keys, key_states);
}

/// Law: with a VDP loaded, the keyboard step sends, in key map order, exactly
/// one event for each mapped key whose new state differs from whether it was
/// held, carrying that key's scan code and its new state (true for a press,
/// false for a release). The returned sequence gives, for each event, the map
/// entry it comes from.
pub proof fn law_keyboard_step_events<M, V, G, P>(s: CoreView<M, V, G, P>, key_states: Seq<bool>) -> (idx:
    Seq<int>)
    requires
        s.vdp is Some,
        key_states.len() == KEYBOARD_MAP_LEN,
    ensures
        ({
            let events = keyboard_step_events(s, key_states);
            &&& idx.len() == events.len()
            &&& forall|j: int| 0 <= j < idx.len() ==> 0 <= #[trigger] idx[j] < 81
            &&& forall|j: int, k: int| 0 <= j < k < idx.len() ==> idx[j] < idx[k]
            &&& forall|j: int|
                0 <= j < idx.len() ==> #[trigger] events[j] == (KeyEvent {
                    scancode: spec_keymap_entry(idx[j]).1,
                    pressed: key_states[idx[j]],
                })
            &&& forall|i: int|
                0 <= i < 81 ==> ((key_states[i] != s.pressed_keys.contains(
                    (#[trigger] spec_keymap_entry(i)).0,
                )) <==> idx.contains(i))
        }),
{
    crate::keyboard::law_scan_events(s.pressed_keys, key_states)
}

} // verus!
