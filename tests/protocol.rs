use semihosting::cmd::{cmd_line, cmd_line_result};
use semihosting::dbg::DebugCon;
use semihosting::error::{check, FAILURE};
use semihosting::exit::{exit, ExitReason};
use semihosting::exts::Extensions;
use semihosting::fs::{remove, rename, status, tmp_name, transferred, File, OpenMode};
use semihosting::heap::{heap_info, heap_info_result, HeapInfo};
use semihosting::op::{Call, Op, Param};
use semihosting::sys::{errno, errno_result, system, system_result};
use semihosting::time::{clock, elapsed, elapsed_result, tick_freq, time};

fn words(c: &Call) -> Vec<usize> {
    match &c.param {
        Param::Block(b) => b.clone(),
        other => panic!("expected an argument block, got {:?}", other),
    }
}

fn text(c: &Call) -> Vec<u8> {
    match &c.param {
        Param::Text(t) => t.clone(),
        other => panic!("expected a text parameter, got {:?}", other),
    }
}

fn opened(handle: usize) -> File {
    File::open_result(handle).expect("a valid handle opens")
}

#[test]
fn check_sentinel_is_failure() {
    assert_eq!(check(usize::MAX), Err(()));
    assert_eq!(check(FAILURE), Err(()));
    assert_eq!(FAILURE as isize, -1);
}

#[test]
fn check_passes_other_words_unchanged() {
    assert_eq!(check(0), Ok(0));
    assert_eq!(check(1), Ok(1));
    assert_eq!(check(12345), Ok(12345));
    assert_eq!(check(usize::MAX - 1), Ok(usize::MAX - 1));
}

#[test]
fn op_codes_match_the_wire() {
    assert_eq!(Op::Open.code(), 0x1);
    assert_eq!(Op::Close.code(), 0x2);
    assert_eq!(Op::Write0.code(), 0x4);
    assert_eq!(Op::Write.code(), 0x5);
    assert_eq!(Op::Read.code(), 0x6);
    assert_eq!(Op::ReadC.code(), 0x7);
    assert_eq!(Op::IsTty.code(), 0x9);
    assert_eq!(Op::Seek.code(), 0xA);
    assert_eq!(Op::FLen.code(), 0xC);
    assert_eq!(Op::TmpName.code(), 0xD);
    assert_eq!(Op::Remove.code(), 0xE);
    assert_eq!(Op::Rename.code(), 0xF);
    assert_eq!(Op::Clock.code(), 0x10);
    assert_eq!(Op::Time.code(), 0x11);
    assert_eq!(Op::System.code(), 0x12);
    assert_eq!(Op::Errno.code(), 0x13);
    assert_eq!(Op::GetCmdLine.code(), 0x15);
    assert_eq!(Op::HeapInfo.code(), 0x16);
    assert_eq!(Op::Exit.code(), 0x18);
    assert_eq!(Op::Elapsed.code(), 0x30);
    assert_eq!(Op::TickFreq.code(), 0x31);
}

#[test]
fn open_modes_encode_in_documented_order() {
    let modes = [
        OpenMode::Read,
        OpenMode::ReadBinary,
        OpenMode::ReadWrite,
        OpenMode::ReadWriteBinary,
        OpenMode::Write,
        OpenMode::WriteBinary,
        OpenMode::WriteRead,
        OpenMode::WriteReadBinary,
        OpenMode::Append,
        OpenMode::AppendBinary,
        OpenMode::AppendRead,
        OpenMode::AppendReadBinary,
    ];
    for (i, m) in modes.iter().enumerate() {
        let req = File::open(b"data.bin\0", *m);
        let c = req.call(0x8000);
        assert_eq!(c.op, Op::Open);
        assert_eq!(words(&c), vec![0x8000, i, 8]);
        assert_eq!(m.code(), i);
        assert_eq!(OpenMode::from_code(i), Some(*m));
    }
    assert_eq!(OpenMode::from_code(12), None);
}

#[test]
fn open_request_keeps_path_and_mode() {
    let req = File::open(b"a/b\0", OpenMode::WriteRead);
    assert_eq!(req.path(), b"a/b\0");
    assert_eq!(req.mode(), OpenMode::WriteRead);
}

#[test]
fn open_result_follows_the_sentinel() {
    assert!(File::open_result(FAILURE).is_err());
    assert!(File::open_result(0).is_err());
    let f = opened(7);
    assert_eq!(f.handle_word(), 7);
}

#[test]
fn file_requests_carry_the_handle() {
    let f = opened(42);
    let c = f.read(0x1000, 16);
    assert_eq!(c.op, Op::Read);
    assert_eq!(words(&c), vec![42, 0x1000, 16]);
    let c = f.write(0x2000, 5);
    assert_eq!(c.op, Op::Write);
    assert_eq!(words(&c), vec![42, 0x2000, 5]);
    let c = f.seek(100);
    assert_eq!(c.op, Op::Seek);
    assert_eq!(words(&c), vec![42, 100]);
    let c = f.len();
    assert_eq!(c.op, Op::FLen);
    assert_eq!(words(&c), vec![42]);
    let c = f.is_tty();
    assert_eq!(c.op, Op::IsTty);
    assert_eq!(words(&c), vec![42]);
    let c = f.close();
    assert_eq!(c.op, Op::Close);
    assert_eq!(words(&c), vec![42]);
}

#[test]
fn seek_and_close_results() {
    assert_eq!(File::seek_result(0), Ok(()));
    assert_eq!(File::seek_result(FAILURE), Err(()));
    assert_eq!(File::close_result(0), Ok(()));
    assert_eq!(File::close_result(FAILURE), Err(()));
}

#[test]
fn length_and_emptiness() {
    assert_eq!(File::len_result(300), Ok(300));
    assert_eq!(File::len_result(FAILURE), Err(()));
    assert!(File::is_empty(Ok(0)));
    assert!(!File::is_empty(Ok(3)));
    assert!(File::is_empty(Err(())));
}

#[test]
fn tty_only_for_one() {
    assert!(File::is_tty_result(1));
    assert!(!File::is_tty_result(0));
    assert!(!File::is_tty_result(2));
    assert!(!File::is_tty_result(FAILURE));
}

#[test]
fn standard_streams() {
    let i = File::stdin();
    assert_eq!(i.path(), b":tt\0");
    assert_eq!(i.mode(), OpenMode::ReadBinary);
    assert_eq!(words(&i.call(0x10)), vec![0x10, 1, 3]);
    let o = File::stdout();
    assert_eq!(o.path(), b":tt\0");
    assert_eq!(o.mode(), OpenMode::WriteBinary);
    assert_eq!(words(&o.call(0x10)), vec![0x10, 5, 3]);
    let e = File::stderr();
    assert_eq!(e.path(), b":tt\0");
    assert_eq!(e.mode(), OpenMode::AppendBinary);
    assert_eq!(words(&e.call(0x10)), vec![0x10, 9, 3]);
}

#[test]
fn byte_accounting_full_and_partial() {
    assert_eq!(transferred(64, 0), Some(64));
    assert_eq!(transferred(64, 24), Some(40));
    assert_eq!(transferred(64, 64), Some(0));
    assert_eq!(transferred(64, 65), None);
}

#[test]
fn remove_rename_tmp_name() {
    let c = remove(b"old.txt\0", 0x300);
    assert_eq!(c.op, Op::Remove);
    assert_eq!(words(&c), vec![0x300, 7]);
    let c = rename(b"a\0", 0x10, b"bcd\0", 0x20);
    assert_eq!(c.op, Op::Rename);
    assert_eq!(words(&c), vec![0x10, 1, 0x20, 3]);
    let c = tmp_name(0x400, 9, 64);
    assert_eq!(c.op, Op::TmpName);
    assert_eq!(words(&c), vec![0x400, 9, 64]);
    assert_eq!(status(0), Ok(()));
    assert_eq!(status(13), Err(13));
    assert_eq!(status(FAILURE), Err(FAILURE));
}

#[test]
fn console_three_hundred_bytes_take_two_writes() {
    let s = vec![b'x'; 300];
    let calls = DebugCon.write_str(&s);
    assert_eq!(calls.len(), 2);
    let first = text(&calls[0]);
    let second = text(&calls[1]);
    assert_eq!(calls[0].op, Op::Write0);
    assert_eq!(calls[1].op, Op::Write0);
    assert_eq!(first.len(), 256);
    assert_eq!(&first[..255], &s[..255]);
    assert_eq!(first[255], 0);
    assert_eq!(second.len(), 46);
    assert_eq!(&second[..45], &s[255..]);
    assert_eq!(second[45], 0);
}

#[test]
fn console_edges() {
    assert!(DebugCon.write_str(b"").is_empty());
    let calls = DebugCon.write_str(b"hi");
    assert_eq!(calls.len(), 1);
    assert_eq!(text(&calls[0]), b"hi\0".to_vec());
    let s = vec![b'y'; 510];
    let calls = DebugCon.write_str(&s);
    assert_eq!(calls.len(), 2);
    assert_eq!(text(&calls[1]).len(), 256);
    let s = vec![b'z'; 511];
    assert_eq!(DebugCon.write_str(&s).len(), 3);
}

#[test]
fn console_read() {
    let c = DebugCon.read();
    assert_eq!(c.op, Op::ReadC);
    assert!(matches!(c.param, Param::Zero));
    assert_eq!(DebugCon::read_result(0x41), b'A');
    assert_eq!(DebugCon::read_result(0x1_41), b'A');
}

#[test]
fn exit_application_exit_block() {
    let c = exit(ExitReason::ApplicationExit, 0);
    assert_eq!(c.op, Op::Exit);
    assert_eq!(words(&c), vec![0x20026, 0]);
    let c = exit(ExitReason::BranchThroughZero, 3);
    assert_eq!(words(&c), vec![0x20000, 3]);
    assert_eq!(ExitReason::OSSpecific.code(), 0x29);
    assert_eq!(ExitReason::FIQ.code(), 0x7);
}

#[test]
fn extensions_reject_wrong_magic() {
    assert!(Extensions::open(&[0x53, 0x48, 0x46, 0x42], &[0xff]).is_err());
    assert!(Extensions::open(&[0, 0, 0, 0], &[0xff]).is_err());
    assert!(Extensions::open(&[0x53, 0x48, 0x47], &[0xff]).is_err());
    assert!(!Extensions::has_magic(&[0x53, 0x48, 0x46, 0x42]));
    assert!(Extensions::has_magic(&[0x53, 0x48, 0x47, 0x42]));
}

#[test]
fn extensions_bits_and_short_bitmap() {
    let e = Extensions::open(&[0x53, 0x48, 0x47, 0x42], &[0b0000_0010]).unwrap();
    assert!(!e.is_supported(0, 0));
    assert!(e.is_supported(0, 1));
    assert!(!e.is_supported(0, 7));
    assert!(!e.is_supported(1, 0));
    let none = Extensions::open(&[0x53, 0x48, 0x47, 0x42], &[]).unwrap();
    assert!(!none.is_supported(0, 1));
}

#[test]
fn extensions_file_path() {
    let r = Extensions::features_file();
    assert_eq!(r.path(), b":semihosting-features\0");
    assert_eq!(r.mode(), OpenMode::ReadBinary);
}

#[test]
fn system_and_errno() {
    let c = system(b"ls\0", 0x900);
    assert_eq!(c.op, Op::System);
    assert_eq!(words(&c), vec![0x900, 2]);
    assert_eq!(system_result(0), 0);
    assert_eq!(system_result(FAILURE), -1);
    let c = errno();
    assert_eq!(c.op, Op::Errno);
    assert_eq!(errno_result(2), 2);
    assert_eq!(errno_result(0x1_0000_0005), 5);
}

#[test]
fn clocks() {
    assert_eq!(clock().op, Op::Clock);
    assert_eq!(time().op, Op::Time);
    assert_eq!(tick_freq().op, Op::TickFreq);
    let c = elapsed();
    assert_eq!(c.op, Op::Elapsed);
    assert_eq!(words(&c), vec![0]);
    assert_eq!(elapsed_result(0, &[987654]), Ok(987654));
    assert_eq!(elapsed_result(FAILURE, &[987654]), Err(()));
}

#[test]
fn heap_and_command_line() {
    let c = heap_info();
    assert_eq!(c.op, Op::HeapInfo);
    assert_eq!(words(&c), vec![0, 0, 0, 0]);
    let h = heap_info_result(0, &[1, 2, 3, 4]).unwrap();
    assert_eq!(
        h,
        HeapInfo { heap_base: 1, heap_limit: 2, stack_base: 3, stack_limit: 4 }
    );
    assert_eq!(heap_info_result(FAILURE, &[1, 2, 3, 4]), Err(()));
    let c = cmd_line(0x5000, 80);
    assert_eq!(c.op, Op::GetCmdLine);
    assert_eq!(words(&c), vec![0x5000, 80]);
    assert_eq!(cmd_line_result(0, &[0x5000, 12]), Ok((0x5000, 12)));
    assert_eq!(cmd_line_result(FAILURE, &[0x5000, 12]), Err(()));
}
