use rood::error::{Cause, Error};
use rood::sys::file::{
    ensure_exists, existence_result, mode_is_executable, replace_text, EXECUTABLE_MODE,
};
use rood::sys::notify::{notify_command, notify_outcome};
use rood::sys::{Architecture, Platform};

#[test]
fn platform_round_trip() {
    for p in [Platform::Windows, Platform::Darwin, Platform::Linux, Platform::Unknown] {
        assert_eq!(Platform::from(p.to_string().as_str()), p);
        for name in p.value() {
            assert_eq!(Platform::from(name.as_str()), p);
        }
    }
}

#[test]
fn architecture_round_trip() {
    for a in [Architecture::Amd64, Architecture::Arm, Architecture::Arm64, Architecture::Unknown] {
        assert_eq!(Architecture::from(a.to_string().as_str()), a);
        for name in a.value() {
            assert_eq!(Architecture::from(name.as_str()), a);
        }
    }
}

#[test]
fn platform_names() {
    assert_eq!(Platform::Darwin.value(), vec!["darwin", "macos"]);
    assert_eq!(Platform::Windows.to_string(), "windows");
    assert_eq!(Platform::from("macos"), Platform::Darwin);
    assert_eq!(Platform::from("darwin"), Platform::Darwin);
    assert_eq!(Platform::from("linux"), Platform::Linux);
    assert_eq!(Platform::from("beos"), Platform::Unknown);
    assert_eq!(Platform::from(""), Platform::Unknown);
}

#[test]
fn architecture_names() {
    assert_eq!(Architecture::Amd64.value(), vec!["amd64", "x64", "x86_64"]);
    assert_eq!(Architecture::Arm64.value(), vec!["aarch64", "arm64"]);
    assert_eq!(Architecture::Arm64.to_string(), "aarch64");
    assert_eq!(Architecture::from("x64"), Architecture::Amd64);
    assert_eq!(Architecture::from("x86_64"), Architecture::Amd64);
    assert_eq!(Architecture::from("arm64"), Architecture::Arm64);
    assert_eq!(Architecture::from("mips"), Architecture::Unknown);
}

#[test]
fn detection_from_target_names() {
    assert_eq!(Platform::detect("linux"), Platform::Linux);
    assert_eq!(Platform::detect("macos"), Platform::Darwin);
    assert_eq!(Platform::detect("windows"), Platform::Windows);
    assert_eq!(Platform::detect("darwin"), Platform::Unknown);
    assert_eq!(Platform::detect("freebsd"), Platform::Unknown);
    assert_eq!(Architecture::detect("x86_64"), Architecture::Amd64);
    assert_eq!(Architecture::detect("arm"), Architecture::Arm);
    assert_eq!(Architecture::detect("aarch64"), Architecture::Arm64);
    assert_eq!(Architecture::detect("amd64"), Architecture::Unknown);
    assert_eq!(Architecture::detect("riscv64"), Architecture::Unknown);
}

#[test]
fn errors_describe_themselves() {
    let e = Error::new(Cause::NotFound, "no such file");
    assert_eq!(e.cause, Cause::NotFound);
    assert_eq!(e.message, "no such file");
    assert_eq!(e.describe(), "[NotFound] - no such file");
    let g = Error::new(Cause::GeneralError(String::from("boom")), "it broke");
    assert_eq!(g.describe(), "[GeneralError(\"boom\")] - it broke");
    assert_eq!(Cause::SerializationError.label(), "SerializationError");
}

#[test]
fn io_errors_convert() {
    let io = std::io::Error::new(std::io::ErrorKind::Other, "pipe closed");
    let e = Error::from_io(io);
    assert_eq!(e.cause, Cause::IOError);
    assert_eq!(e.message, "pipe closed");
}

#[test]
fn missing_paths_are_reported() {
    assert!(existence_result("/tmp", true).is_ok());
    let e = existence_result("/nope", false).unwrap_err();
    assert_eq!(e.cause, Cause::NotFound);
    assert_eq!(e.message, "Path [/nope] does not exist");
    let r = ensure_exists("/non_existent_file.txt").unwrap_err();
    assert_eq!(r.message, "Path [/non_existent_file.txt] does not exist");
    assert!(ensure_exists("/").is_ok());
}

#[test]
fn notifications_use_notify_send() {
    let args = notify_command(Platform::Linux, "Title", "Body").unwrap();
    assert_eq!(args, vec!["notify-send", "Title", "Body"]);
    let e = notify_command(Platform::Darwin, "t", "m").unwrap_err();
    assert_eq!(e.message, "Unsupported platform");
    assert!(notify_outcome(true).is_ok());
    assert_eq!(notify_outcome(false).unwrap_err().cause, Cause::IOError);
}

#[test]
fn replacing_text() {
    assert_eq!(
        replace_text("Hello there world. Hello again.", "Hello", "Goodbye"),
        "Goodbye there world. Goodbye again."
    );
    assert_eq!(replace_text("aaaa", "aa", "b"), "bb");
    assert_eq!(replace_text("aaa", "aa", "b"), "ba");
    assert_eq!(replace_text("abc", "", "-"), "-a-b-c-");
    assert_eq!(replace_text("", "", "x"), "x");
    assert_eq!(replace_text("", "a", "x"), "");
    assert_eq!(replace_text("héllo wörld", "ö", "o"), "héllo world");
    assert_eq!(replace_text("abc", "abcd", "x"), "abc");
    assert_eq!(replace_text("abab", "ab", ""), "");
    for (s, p, t) in [("one two one", "one", "1"), ("xyz", "y", "yy"), ("mississippi", "ss", "S")] {
        assert_eq!(replace_text(s, p, t), s.replace(p, t));
    }
}

#[test]
fn execute_bits() {
    assert_eq!(EXECUTABLE_MODE, 0o755);
    assert!(mode_is_executable(0o755));
    assert!(mode_is_executable(0o100));
    assert!(mode_is_executable(0o001));
    assert!(!mode_is_executable(0o644));
    assert!(!mode_is_executable(0));
}

#[test]
fn errors_convert_with_from() {
    let io = std::io::Error::new(std::io::ErrorKind::NotFound, "gone");
    let e: Error = Error::from(io);
    assert_eq!(e.cause, Cause::IOError);
    assert_eq!(e.message, "gone");
    let later = std::time::UNIX_EPOCH;
    let earlier = later - std::time::Duration::from_secs(1);
    let t = earlier.duration_since(later).unwrap_err();
    let te = Error::from(t);
    assert_eq!(te.cause, Cause::TimeError);
    assert!(!te.message.is_empty());
}
