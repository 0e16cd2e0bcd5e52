//! Library path resolution.
//!
//! The shared library ships as one artifact per operating system and CPU
//! architecture, and for the embedded Linux board family as one artifact
//! per CPU model.  The model is identified by the `CPU part` field of the
//! system's CPU-identification text: the last space-separated word of the
//! first line naming that field, lowercased, selects the model.  An
//! unrecognized part falls back to the least capable known model — the
//! caller should warn but can continue — while identification text with
//! no `CPU part` line at all cannot be resolved and the caller must treat
//! that as fatal.  Reading the identification text and learning the build
//! output directory are the runner's work; every decision made on the
//! bytes is here.

use vstd::prelude::*;

use vstd::string::StringExecFns;

verus! {

/// The byte value of a line feed.
pub const NEWLINE: u8 = 10;

/// The byte value of a space.
pub const SPACE: u8 = 32;

/// A CPU model of the embedded Linux board family, or `Unsupported` for a
/// part identifier outside the known set.
#[derive(Clone, Copy, Debug, PartialEq, Eq, Structural)]
pub enum Machine {
    Arm11,
    CortexA53,
    CortexA72,
    CortexA76,
    Unsupported,
}

impl Machine {
    /// The name of this model as it appears in artifact paths.
    pub open spec fn spec_name(self) -> Seq<char> {
        match self {
            Machine::Arm11 => "arm11"@,
            Machine::CortexA53 => "cortex-a53"@,
            Machine::CortexA72 => "cortex-a72"@,
            Machine::CortexA76 => "cortex-a76"@,
            Machine::Unsupported => "unsupported"@,
        }
    }

    /// The name of this model as it appears in artifact paths.
    pub fn name(&self) -> (name: &'static str)
        ensures
            name@ == self.spec_name(),
    {
        match self {
            Machine::Arm11 => "arm11",
            Machine::CortexA53 => "cortex-a53",
            Machine::CortexA72 => "cortex-a72",
            Machine::CortexA76 => "cortex-a76",
            Machine::Unsupported => "unsupported",
        }
    }

    /// Whether a tuned artifact exists for this model.
    pub open spec fn is_supported(self) -> bool {
        !(self is Unsupported)
    }

    /// Whether a tuned artifact exists for this model.  When it does not,
    /// path resolution falls back to the least capable model and the
    /// runner should emit a warning.
    pub fn supported(&self) -> (supported: bool)
        ensures
            supported == self.is_supported(),
    {
        !matches!(self, Machine::Unsupported)
    }
}

/// The operating system and CPU architecture the artifact is picked for.
#[derive(Clone, Copy, Debug, PartialEq, Eq, Structural)]
pub enum Platform {
    MacX86_64,
    MacArm64,
    WindowsX86_64,
    WindowsArm64,
    LinuxX86_64,
    /// The embedded Linux board family; the artifact further depends on
    /// the CPU model and on whether the system is 64-bit.
    LinuxArm { machine: Machine, aarch64: bool },
}

/// The bytes of the `CPU part` field name, `C P U space p a r t`.
pub open spec fn cpu_part_needle() -> Seq<u8> {
    seq![67u8, 80u8, 85u8, 32u8, 112u8, 97u8, 114u8, 116u8]
}

/// Whether the field name occurs at position `i`.
pub open spec fn spec_match_at(s: Seq<u8>, i: int) -> bool {
    i + 8 <= s.len() && s.subrange(i, i + 8) == cpu_part_needle()
}

/// The first occurrence of the field name at or after `i`.
pub open spec fn spec_find_needle_from(s: Seq<u8>, i: int) -> Option<int>
    decreases s.len() - i,
{
    if i + 8 > s.len() {
        None
    } else if spec_match_at(s, i) {
        Some(i)
    } else {
        spec_find_needle_from(s, i + 1)
    }
}

/// The first occurrence of byte `b` at or after `i`.
pub open spec fn spec_find_byte_from(s: Seq<u8>, b: u8, i: int) -> Option<int>
    decreases s.len() - i,
{
    if i >= s.len() {
        None
    } else if s[i] == b {
        Some(i)
    } else {
        spec_find_byte_from(s, b, i + 1)
    }
}

/// The last occurrence of byte `b` before `end`.
pub open spec fn spec_rfind_byte_before(s: Seq<u8>, b: u8, end: int) -> Option<int>
    decreases end,
{
    if end <= 0 {
        None
    } else if s[end - 1] == b {
        Some(end - 1)
    } else {
        spec_rfind_byte_before(s, b, end - 1)
    }
}

/// The byte with an ASCII capital letter (65 through 90) lowered.
pub open spec fn spec_to_lower(b: u8) -> u8 {
    if 65 <= b && b <= 90 {
        (b + 32) as u8
    } else {
        b
    }
}

/// The bytes with every ASCII capital letter lowered.
pub open spec fn spec_lower(s: Seq<u8>) -> Seq<u8> {
    s.map_values(|b: u8| spec_to_lower(b))
}

/// The part identifier in CPU-identification text: the last
/// space-separated word of the line holding the first `CPU part` field,
/// or `None` when no line names that field.
pub open spec fn spec_cpu_part_token(s: Seq<u8>) -> Option<Seq<u8>> {
    match spec_find_needle_from(s, 0) {
        None => None,
        Some(p) => {
            let line_start = match spec_rfind_byte_before(s, NEWLINE, p) {
                Some(k) => k + 1,
                None => 0,
            };
            let line_end = match spec_find_byte_from(s, NEWLINE, p) {
                Some(k) => k,
                None => s.len() as int,
            };
            let token_start = match spec_rfind_byte_before(s, SPACE, line_end) {
                Some(k) => if k >= line_start {
                    k + 1
                } else {
                    line_start
                },
                None => line_start,
            };
            Some(s.subrange(token_start, line_end))
        },
    }
}

/// The model a lowercased part identifier denotes: `0xb76`, `0xd03`,
/// `0xd08` and `0xd0b` are the known parts, written here as bytes.
pub open spec fn spec_machine_for_part(part: Seq<u8>) -> Machine {
    if part == seq![48u8, 120u8, 98u8, 55u8, 54u8] {
        Machine::Arm11
    } else if part == seq![48u8, 120u8, 100u8, 48u8, 51u8] {
        Machine::CortexA53
    } else if part == seq![48u8, 120u8, 100u8, 48u8, 56u8] {
        Machine::CortexA72
    } else if part == seq![48u8, 120u8, 100u8, 48u8, 98u8] {
        Machine::CortexA76
    } else {
        Machine::Unsupported
    }
}

/// The model CPU-identification text denotes, or `None` when the text
/// holds no `CPU part` field.
pub open spec fn spec_find_machine_type(s: Seq<u8>) -> Option<Machine> {
    match spec_cpu_part_token(s) {
        None => None,
        Some(token) => Some(spec_machine_for_part(spec_lower(token))),
    }
}

/// Finds the first occurrence of the `CPU part` field name.
fn find_needle(s: &Vec<u8>) -> (r: Option<usize>)
    ensures
        match r {
            Some(p) => p + 8 <= s@.len() && spec_find_needle_from(s@, 0) == Some(p as int),
            None => spec_find_needle_from(s@, 0) is None,
        },
{
    if s.len() < 8 {
        return None;
    }
    let last: usize = s.len() - 8;
    let mut i: usize = 0;
    while i <= last
        invariant
            s@.len() >= 8,
            last == s@.len() - 8,
            last <= usize::MAX - 8,
            i <= last + 1,
            spec_find_needle_from(s@, 0) == spec_find_needle_from(s@, i as int),
        decreases last + 1 - i,
    {
        if s[i] == 67u8 && s[i + 1] == 80u8 && s[i + 2] == 85u8 && s[i + 3] == 32u8 && s[i + 4]
            == 112u8 && s[i + 5] == 97u8 && s[i + 6] == 114u8 && s[i + 7] == 116u8 {
            proof {
                assert(s@.subrange(i as int, i as int + 8) =~= cpu_part_needle());
            }
            return Some(i);
        }
        proof {
            assert(s@.subrange(i as int, i as int + 8)[0] == s@[i as int]);
            assert(s@.subrange(i as int, i as int + 8) != cpu_part_needle());
        }
        i = i + 1;
    }
    None
}

/// Finds the first occurrence of byte `b` at or after `from`.
fn find_byte_from(s: &Vec<u8>, b: u8, from: usize) -> (r: Option<usize>)
    requires
        from <= s@.len(),
    ensures
        match r {
            Some(k) => from <= k < s@.len() && spec_find_byte_from(s@, b, from as int) == Some(
                k as int,
            ),
            None => spec_find_byte_from(s@, b, from as int) is None,
        },
{
    let mut i: usize = from;
    while i < s.len()
        invariant
            from <= i <= s@.len(),
            spec_find_byte_from(s@, b, from as int) == spec_find_byte_from(s@, b, i as int),
        decreases s@.len() - i,
    {
        if s[i] == b {
            return Some(i);
        }
        i = i + 1;
    }
    None
}

/// Finds the last occurrence of byte `b` before `end`.
fn rfind_byte_before(s: &Vec<u8>, b: u8, end: usize) -> (r: Option<usize>)
    requires
        end <= s@.len(),
    ensures
        match r {
            Some(k) => k < end && spec_rfind_byte_before(s@, b, end as int) == Some(k as int),
            None => spec_rfind_byte_before(s@, b, end as int) is None,
        },
{
    let mut i: usize = end;
    while i > 0
        invariant
            i <= end <= s@.len(),
            spec_rfind_byte_before(s@, b, end as int) == spec_rfind_byte_before(s@, b, i as int),
        decreases i,
    {
        if s[i - 1] == b {
            return Some(i - 1);
        }
        i = i - 1;
    }
    None
}

/// Whether a part identifier is the given five bytes.
fn part_is(part: &Vec<u8>, b0: u8, b1: u8, b2: u8, b3: u8, b4: u8) -> (r: bool)
    ensures
        r <==> part@ == seq![b0, b1, b2, b3, b4],
{
    if part.len() == 5 && part[0] == b0 && part[1] == b1 && part[2] == b2 && part[3] == b3
        && part[4] == b4 {
        proof {
            assert(part@ =~= seq![b0, b1, b2, b3, b4]);
        }
        true
    } else {
        proof {
            let pat = seq![b0, b1, b2, b3, b4];
            assert(pat.len() == 5);
            if part@.len() == 5 {
                assert(pat[0] == b0 && pat[1] == b1 && pat[2] == b2 && pat[3] == b3 && pat[4]
                    == b4);
            }
        }
        false
    }
}

/// The model a lowercased part identifier denotes.
fn machine_for_part(part: &Vec<u8>) -> (machine: Machine)
    ensures
        machine == spec_machine_for_part(part@),
{
    if part_is(part, 48, 120, 98, 55, 54) {
        Machine::Arm11
    } else if part_is(part, 48, 120, 100, 48, 51) {
        Machine::CortexA53
    } else if part_is(part, 48, 120, 100, 48, 56) {
        Machine::CortexA72
    } else if part_is(part, 48, 120, 100, 48, 98) {
        Machine::CortexA76
    } else {
        Machine::Unsupported
    }
}

/// Identifies the CPU model from CPU-identification text.
///
/// The last space-separated word of the first line naming the `CPU part`
/// field, lowercased, selects the model; a word outside the known set
/// yields `Unsupported`, for which path resolution falls back to the
/// least capable model.  `None` — the text names no `CPU part` field at
/// all — means the model cannot be identified, which the caller must
/// treat as fatal.
pub fn find_machine_type(cpu_info: &Vec<u8>) -> (machine: Option<Machine>)
    ensures
        machine == spec_find_machine_type(cpu_info@),
{
    let p = match find_needle(cpu_info) {
        Some(p) => p,
        None => {
            return None;
        },
    };
    let line_start: usize = match rfind_byte_before(cpu_info, NEWLINE, p) {
        Some(k) => k + 1,
        None => 0,
    };
    let line_end: usize = match find_byte_from(cpu_info, NEWLINE, p) {
        Some(k) => k,
        None => cpu_info.len(),
    };
    let token_start: usize = match rfind_byte_before(cpu_info, SPACE, line_end) {
        Some(k) => if k >= line_start {
            k + 1
        } else {
            line_start
        },
        None => line_start,
    };
    let ghost token = cpu_info@.subrange(token_start as int, line_end as int);
    let mut lowered: Vec<u8> = Vec::new();
    let mut j: usize = token_start;
    while j < line_end
        invariant
            token_start <= j <= line_end <= cpu_info@.len(),
            token == cpu_info@.subrange(token_start as int, line_end as int),
            lowered@.len() == j - token_start,
            forall|k: int|
                0 <= k < lowered@.len() ==> lowered@[k] == spec_to_lower(
                    #[trigger] token[k],
                ),
        decreases line_end - j,
    {
        let b = cpu_info[j];
        if b >= 65 && b <= 90 {
            lowered.push(b + 32);
        } else {
            lowered.push(b);
        }
        j = j + 1;
    }
    proof {
        assert(lowered@ =~= spec_lower(token));
    }
    Some(machine_for_part(&lowered))
}

/// The artifact path below the packaged library directory for the given
/// platform.  Every platform resolves to some path: an unsupported board
/// model falls back to the least capable artifact.
pub open spec fn spec_base_library_path(platform: Platform) -> Seq<char> {
    match platform {
        Platform::MacX86_64 => "mac/x86_64/libpv_recorder.dylib"@,
        Platform::MacArm64 => "mac/arm64/libpv_recorder.dylib"@,
        Platform::WindowsX86_64 => "windows/amd64/libpv_recorder.dll"@,
        Platform::WindowsArm64 => "windows/arm64/libpv_recorder.dll"@,
        Platform::LinuxX86_64 => "linux/x86_64/libpv_recorder.so"@,
        Platform::LinuxArm { machine, aarch64 } => {
            if machine.is_supported() {
                if aarch64 {
                    "raspberry-pi/"@ + machine.spec_name() + "-aarch64/libpv_recorder.so"@
                } else {
                    "raspberry-pi/"@ + machine.spec_name() + "/libpv_recorder.so"@
                }
            } else {
                "raspberry-pi/arm11/libpv_recorder.so"@
            }
        },
    }
}

/// Resolves the artifact path below the packaged library directory for
/// the given platform.
pub fn base_library_path(platform: Platform) -> (path: String)
    ensures
        path@ == spec_base_library_path(platform),
{
    match platform {
        Platform::MacX86_64 => "mac/x86_64/libpv_recorder.dylib".to_owned(),
        Platform::MacArm64 => "mac/arm64/libpv_recorder.dylib".to_owned(),
        Platform::WindowsX86_64 => "windows/amd64/libpv_recorder.dll".to_owned(),
        Platform::WindowsArm64 => "windows/arm64/libpv_recorder.dll".to_owned(),
        Platform::LinuxX86_64 => "linux/x86_64/libpv_recorder.so".to_owned(),
        Platform::LinuxArm { machine, aarch64 } => {
            if machine.supported() {
                let mut path = "raspberry-pi/".to_owned();
                path.append(machine.name());
                if aarch64 {
                    path.append("-aarch64/libpv_recorder.so");
                } else {
                    path.append("/libpv_recorder.so");
                }
                path
            } else {
                "raspberry-pi/arm11/libpv_recorder.so".to_owned()
            }
        },
    }
}

/// Resolves the full shared-library path: the packaged library directory
/// below the build output directory, then the platform artifact.
pub fn pv_library_path(out_dir: &str, platform: Platform) -> (path: String)
    ensures
        path@ == out_dir@ + "/lib/"@ + spec_base_library_path(platform),
{
    let mut path = out_dir.to_owned();
    path.append("/lib/");
    let base = base_library_path(platform);
    path.append(base.as_str());
    path
}

} // verus!
