use blazesym::pid::decimal_string;
use blazesym::symbolize::Elf;
use blazesym::symbolize::Gsym;
use blazesym::symbolize::GsymData;
use blazesym::symbolize::GsymFile;
use blazesym::symbolize::Kernel;
use blazesym::symbolize::Process;
use blazesym::symbolize::Source;
use blazesym::Error;
use blazesym::ErrorKind;
use blazesym::Pid;

/// Check that the `Debug` representation of [`Process`] is as expected.
#[test]
fn process_debug() {
    let process = Process::new(Pid::Slf);
    assert_eq!(format!("{process:?}"), "Process(self)");

    let process = Process::new(Pid::from(1234));
    assert_eq!(format!("{process:?}"), "Process(1234)");
}

#[test]
fn process_debug_string() {
    assert_eq!(Process::new(Pid::Slf).debug_string(), "Process(self)");
    assert_eq!(Process::new(Pid::Pid(1234)).debug_string(), "Process(1234)");
    assert_eq!(Process::new(Pid::Pid(7)).debug_string(), "Process(7)");
}

#[test]
fn process_new_keeps_pid() {
    assert_eq!(Process::new(Pid::Slf).pid, Pid::Slf);
    assert_eq!(Process::new(Pid::Pid(42)).pid, Pid::Pid(42));
}

#[test]
fn pid_from_zero_is_the_calling_process() {
    assert_eq!(Pid::from(0), Pid::Slf);
}

#[test]
fn pid_from_number_is_that_process() {
    assert_eq!(Pid::from(1), Pid::Pid(1));
    assert_eq!(Pid::from(1234), Pid::Pid(1234));
    assert_eq!(Pid::from(u32::MAX), Pid::Pid(u32::MAX));
}

#[test]
fn pid_to_string() {
    assert_eq!(Pid::Slf.to_string(), "self");
    assert_eq!(Pid::Pid(1).to_string(), "1");
    assert_eq!(Pid::Pid(1234).to_string(), "1234");
    assert_eq!(Pid::from(0).to_string(), "self");
}

#[test]
fn decimal_string_of_single_digits() {
    let digits = ["0", "1", "2", "3", "4", "5", "6", "7", "8", "9"];
    for (n, digit) in digits.iter().enumerate() {
        assert_eq!(decimal_string(n as u32), *digit);
    }
}

#[test]
fn decimal_string_of_longer_numbers() {
    assert_eq!(decimal_string(10), "10");
    assert_eq!(decimal_string(99), "99");
    assert_eq!(decimal_string(100), "100");
    assert_eq!(decimal_string(1001), "1001");
    assert_eq!(decimal_string(907050), "907050");
    assert_eq!(decimal_string(u32::MAX), "4294967295");
}

#[test]
fn decimal_string_agrees_with_std() {
    let mut n: u32 = 1;
    for _ in 0..64 {
        assert_eq!(decimal_string(n), format!("{n}"));
        n = n.wrapping_mul(2654435761).wrapping_add(12345);
    }
}

#[test]
fn elf_new_keeps_path() {
    let elf = Elf::new("/bin/sh".to_string());
    assert_eq!(elf.path, "/bin/sh");
    assert_eq!(Elf::new(String::new()).path, "");
}

#[test]
fn gsym_file_new_keeps_path() {
    let gsym = GsymFile::new("/tmp/libc.gsym".to_string());
    assert_eq!(gsym.path, "/tmp/libc.gsym");
}

#[test]
fn gsym_data_new_keeps_data() {
    let data = [0x47u8, 0x53, 0x59, 0x4d];
    let gsym = GsymData::new(&data);
    assert_eq!(gsym.data, &data[..]);
    assert!(GsymData::new(&[]).data.is_empty());
}

#[test]
fn kernel_default_names_no_path() {
    let kernel = Kernel::default();
    assert_eq!(kernel.kallsyms, None);
    assert_eq!(kernel.kernel_image, None);
}

#[test]
fn kernel_equality_goes_by_both_paths() {
    let mut left = Kernel::default();
    let mut right = Kernel::default();
    assert_eq!(left, right);

    left.kallsyms = Some("/proc/kallsyms".to_string());
    assert_ne!(left, right);
    right.kallsyms = Some("/proc/kallsyms".to_string());
    assert_eq!(left, right);

    left.kernel_image = Some("/boot/vmlinux-1".to_string());
    right.kernel_image = Some("/boot/vmlinux-2".to_string());
    assert_ne!(left, right);
    right.kernel_image = Some("/boot/vmlinux-1".to_string());
    assert_eq!(left, right);
}

#[test]
fn source_from_elf() {
    let source = Source::from(Elf::new("/bin/sh".to_string()));
    match source {
        Source::Elf(elf) => assert_eq!(elf.path, "/bin/sh"),
        _ => panic!("not an ELF source"),
    }
}

#[test]
fn source_from_kernel() {
    let mut kernel = Kernel::default();
    kernel.kallsyms = Some("/tmp/kallsyms".to_string());
    let source = Source::from(kernel.clone());
    match source {
        Source::Kernel(inner) => assert_eq!(inner, kernel),
        _ => panic!("not a kernel source"),
    }
}

#[test]
fn source_from_process() {
    let source = Source::from(Process::new(Pid::from(77)));
    match source {
        Source::Process(process) => assert_eq!(process.pid, Pid::Pid(77)),
        _ => panic!("not a process source"),
    }
}

#[test]
fn source_from_gsym_data() {
    let data = [1u8, 2, 3];
    let source = Source::from(GsymData::new(&data));
    match source {
        Source::Gsym(Gsym::Data(gsym)) => assert_eq!(gsym.data, &[1u8, 2, 3][..]),
        _ => panic!("not Gsym data"),
    }
}

#[test]
fn source_from_gsym_file() {
    let source = Source::from(GsymFile::new("/tmp/a.gsym".to_string()));
    match source {
        Source::Gsym(Gsym::File(gsym)) => assert_eq!(gsym.path, "/tmp/a.gsym"),
        _ => panic!("not a Gsym file"),
    }
}

#[test]
fn error_new_keeps_kind_and_message() {
    let err = Error::new(ErrorKind::Io, "cannot read /proc/kallsyms");
    assert_eq!(err.kind(), ErrorKind::Io);
    assert_eq!(err.message(), "cannot read /proc/kallsyms");
    assert_eq!(err.kind, ErrorKind::Io);
    assert_eq!(err.message, "cannot read /proc/kallsyms");
}

#[test]
fn error_equality_goes_by_kind_and_message() {
    let err = Error::new(ErrorKind::InvalidData, "bad header");
    assert_eq!(err, Error::new(ErrorKind::InvalidData, "bad header"));
    assert_ne!(err, Error::new(ErrorKind::Io, "bad header"));
    assert_ne!(err, Error::new(ErrorKind::InvalidData, "bad section"));
}
