use vstd::prelude::*;

verus! {

/// The SD card directory to mount, from the places the core looks at in
/// order: the directory named by the user's override, the directory holding
/// the selected content, the frontend's `agon` system directory when it is a
/// directory (`system_agon_dir` pairs that path with whether it is one), and
/// otherwise `fallback`.
pub fn sdcard_dir<P>(
    env_override: Option<P>,
    content_parent: Option<P>,
    system_agon_dir: Option<(P, bool)>,
    fallback: P,
) -> (r: P)
    ensures
        env_override matches Some(p) ==> r == p,
        env_override is None ==> (content_parent matches Some(p) ==> r == p),
        env_override is None && content_parent is None ==> (system_agon_dir matches Some(
            (p, true),
        ) ==> r == p),
        env_override is None && content_parent is None && !(system_agon_dir matches Some(
            (_, true),
        )) ==> r == fallback,
{
    if let Some(path) = env_override {
        return path;
    }
    if let Some(parent) = content_parent {
        return parent;
    }
    if let Some((agon_directory, is_dir)) = system_agon_dir {
        if is_dir {
            return agon_directory;
        }
    }
    fallback
}

/// Where the MOS firmware image comes from.
pub enum FirmwareSource<P> {
    /// An image already on disk.
    Path(P),
    /// The image bundled with the core, extracted to a scratch directory.
    Bundled,
}

/// The MOS firmware image to boot: the file named by the user's override,
/// else `mos_console8.bin` in the frontend's `agon` system directory when it
/// is a file (`system_mos` pairs that path with whether it is one), else the
/// bundled image.
pub fn firmware_source<P>(env_override: Option<P>, system_mos: Option<(P, bool)>) -> (r:
    FirmwareSource<P>)
    ensures
        env_override matches Some(p) ==> r == FirmwareSource::Path(p),
        env_override is None ==> (system_mos matches Some((p, true)) ==> r
            == FirmwareSource::Path(p)),
        env_override is None && !(system_mos matches Some((_, true))) ==> r
            == FirmwareSource::<P>::Bundled,
{
    if let Some(path) = env_override {
        return FirmwareSource::Path(path);
    }
    if let Some((path, is_file)) = system_mos {
        if is_file {
            return FirmwareSource::Path(path);
        }
    }
    FirmwareSource::Bundled
}

/// Whether a bundled file must be written out again: unless a file of
/// exactly the bundled length is already there (`current_size` is its length,
/// or `None` when it cannot be read).
pub fn needs_extraction(current_size: Option<u64>, bundled_len: u64) -> (r: bool)
    ensures
        r == (current_size != Some(bundled_len)),
{
    match current_size {
        Some(size) => size != bundled_len,
        None => true,
    }
}

/// The one-element sequence of an optional value, or the empty sequence.
pub open spec fn option_seq<P>(o: Option<P>) -> Seq<P> {
    match o {
        Some(p) => seq![p],
        None => Seq::empty(),
    }
}

/// The two-element sequence of an optional pair, or the empty sequence.
pub open spec fn pair_seq<P>(o: Option<(P, P)>) -> Seq<P> {
    match o {
        Some((first, second)) => seq![first, second],
        None => Seq::empty(),
    }
}

/// The paths at which the VDP module is looked for, in the order in which
/// loading is tried: the user's override, the module in the frontend's `agon`
/// system directory, the module beside the running executable and in its
/// `cores` directory (`exe_dir_paths`, when the executable's directory is
/// known), and last the bundled module.
pub fn vdp_candidates<P>(
    env_override: Option<P>,
    system_vdp: Option<P>,
    exe_dir_paths: Option<(P, P)>,
    bundled: P,
) -> (r: Vec<P>)
    ensures
        r@ == option_seq(env_override) + option_seq(system_vdp) + pair_seq(exe_dir_paths)
            + seq![bundled],
{
    let ghost expected = option_seq(env_override) + option_seq(system_vdp) + pair_seq(
        exe_dir_paths,
    ) + seq![bundled];
    let mut paths: Vec<P> = Vec::new();
    if let Some(path) = env_override {
        paths.push(path);
    }
    if let Some(path) = system_vdp {
        paths.push(path);
    }
    if let Some((beside, cores)) = exe_dir_paths {
        paths.push(beside);
        paths.push(cores);
    }
    paths.push(bundled);
    assert(paths@ =~= expected);
    paths
}

/// Law: the candidate list holds one path per place given, in search order:
/// the override first when there is one, the bundled module always last, and
/// the executable's own directory before its `cores` directory, right after
/// the system directory's module.
pub proof fn law_candidate_order<P>(
    env_override: Option<P>,
    system_vdp: Option<P>,
    exe_dir_paths: Option<(P, P)>,
    bundled: P,
)
    ensures
        ({
            let c = option_seq(env_override) + option_seq(system_vdp) + pair_seq(exe_dir_paths)
                + seq![bundled];
            let n_env: int = if env_override is Some { 1 } else { 0 };
            let n_sys: int = if system_vdp is Some { 1 } else { 0 };
            &&& c.len() == n_env + n_sys + (if exe_dir_paths is Some { 2int } else { 0 }) + 1
            &&& c[c.len() - 1] == bundled
            &&& env_override matches Some(p) ==> c[0] == p
            &&& system_vdp matches Some(p) ==> c[n_env] == p
            &&& exe_dir_paths matches Some((beside, cores)) ==> (c[n_env + n_sys] == beside
                && c[n_env + n_sys + 1] == cores)
        }),
{
}

} // verus!
