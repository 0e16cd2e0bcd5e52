//! Library path resolution: CPU model identification from
//! CPU-identification text, per-platform artifact paths, and the full
//! resolved path.

use pv_recorder::find_machine_type;
use pv_recorder::pv_library_path;
use pv_recorder::util::base_library_path;
use pv_recorder::Machine;
use pv_recorder::Platform;

const SAMPLE_CPU_INFO: &str = "processor\t: 0\n\
    model name\t: ARMv7 Processor rev 4 (v7l)\n\
    BogoMIPS\t: 38.40\n\
    CPU implementer\t: 0x41\n\
    CPU architecture: 7\n\
    CPU variant\t: 0x0\n\
    CPU part\t: 0xd03\n\
    CPU revision\t: 4\n";

#[test]
fn the_cpu_part_field_selects_the_model() {
    let info = SAMPLE_CPU_INFO.as_bytes().to_vec();
    assert_eq!(find_machine_type(&info), Some(Machine::CortexA53));
}

#[test]
fn every_known_part_maps_to_its_model() {
    for (part, machine) in [
        ("0xb76", Machine::Arm11),
        ("0xd03", Machine::CortexA53),
        ("0xd08", Machine::CortexA72),
        ("0xd0b", Machine::CortexA76),
        ("0x004", Machine::Unsupported),
    ] {
        let text = format!("flags\t: fp\nCPU part\t: {}\nother\t: 1\n", part);
        let info = text.as_bytes().to_vec();
        assert_eq!(find_machine_type(&info), Some(machine));
    }
}

#[test]
fn the_part_identifier_is_lowercased_before_matching() {
    let info = b"CPU part\t: 0xD03\n".to_vec();
    assert_eq!(find_machine_type(&info), Some(Machine::CortexA53));
}

#[test]
fn only_the_first_cpu_part_line_counts() {
    let info = b"CPU part\t: 0xd08\nCPU part\t: 0xb76\n".to_vec();
    assert_eq!(find_machine_type(&info), Some(Machine::CortexA72));
}

#[test]
fn text_without_a_cpu_part_field_cannot_identify_the_model() {
    let info = b"processor\t: 0\nmodel name\t: whatever\n".to_vec();
    assert_eq!(find_machine_type(&info), None);
    let empty: Vec<u8> = Vec::new();
    assert_eq!(find_machine_type(&empty), None);
}

#[test]
fn a_line_ending_in_a_space_yields_an_empty_unsupported_part() {
    let info = b"CPU part : \n".to_vec();
    assert_eq!(find_machine_type(&info), Some(Machine::Unsupported));
}

#[test]
fn each_platform_resolves_to_its_artifact() {
    assert_eq!(
        base_library_path(Platform::MacX86_64),
        "mac/x86_64/libpv_recorder.dylib"
    );
    assert_eq!(base_library_path(Platform::MacArm64), "mac/arm64/libpv_recorder.dylib");
    assert_eq!(
        base_library_path(Platform::WindowsX86_64),
        "windows/amd64/libpv_recorder.dll"
    );
    assert_eq!(
        base_library_path(Platform::WindowsArm64),
        "windows/arm64/libpv_recorder.dll"
    );
    assert_eq!(
        base_library_path(Platform::LinuxX86_64),
        "linux/x86_64/libpv_recorder.so"
    );
}

#[test]
fn board_artifacts_follow_the_model_and_word_size() {
    assert_eq!(
        base_library_path(Platform::LinuxArm { machine: Machine::CortexA72, aarch64: true }),
        "raspberry-pi/cortex-a72-aarch64/libpv_recorder.so"
    );
    assert_eq!(
        base_library_path(Platform::LinuxArm { machine: Machine::CortexA72, aarch64: false }),
        "raspberry-pi/cortex-a72/libpv_recorder.so"
    );
    assert_eq!(
        base_library_path(Platform::LinuxArm { machine: Machine::Arm11, aarch64: false }),
        "raspberry-pi/arm11/libpv_recorder.so"
    );
}

#[test]
fn an_unsupported_model_falls_back_to_the_least_capable_artifact() {
    let machine = Machine::Unsupported;
    assert!(!machine.supported());
    assert_eq!(
        base_library_path(Platform::LinuxArm { machine, aarch64: true }),
        "raspberry-pi/arm11/libpv_recorder.so"
    );
}

#[test]
fn the_full_path_joins_output_directory_and_artifact() {
    assert_eq!(
        pv_library_path("/build/out", Platform::LinuxX86_64),
        "/build/out/lib/linux/x86_64/libpv_recorder.so"
    );
    assert_eq!(
        pv_library_path(
            "/tmp/target",
            Platform::LinuxArm { machine: Machine::CortexA76, aarch64: true }
        ),
        "/tmp/target/lib/raspberry-pi/cortex-a76-aarch64/libpv_recorder.so"
    );
}

#[test]
fn model_names_match_the_artifact_directories() {
    assert_eq!(Machine::Arm11.name(), "arm11");
    assert_eq!(Machine::CortexA53.name(), "cortex-a53");
    assert_eq!(Machine::CortexA72.name(), "cortex-a72");
    assert_eq!(Machine::CortexA76.name(), "cortex-a76");
    assert_eq!(Machine::Unsupported.name(), "unsupported");
}
