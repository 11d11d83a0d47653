use gcore::dev::hwclock::Hwclock;
use gcore::dev::proc_meminfo::{short_meminfo, ProcMeminfo as DevMeminfo};
use gcore::dev::timerfd::TimerFd;
use gcore::dev::urandom::Urandom;
use gcore::errno::{EINVAL, ENOTDIR, ENOTTY, EPERM, ESPIPE, SUCCESS};
use gcore::fmt::{dec_len, push_dec, push_right_aligned};
use gcore::procfs::{generate_meminfo, MeminfoSource, ProcMeminfo};
use gcore::random::{init_rng, new_rng, Rng};
use gcore::stat::{DevNum, DiskInodeType, S_IFCHR, S_IFREG};
use gcore::time::TimeSpec;

fn source() -> MeminfoSource {
    MeminfoSource { memory_size: 0x800_0000, page_size: 4096, free_frames: 20000 }
}

#[test]
fn decimal_formatting() {
    let mut v = Vec::new();
    push_dec(&mut v, 0);
    push_dec(&mut v, 9071);
    assert_eq!(v, b"09071".to_vec());
    let mut w = Vec::new();
    push_right_aligned(&mut w, 42, 8);
    assert_eq!(w, b"      42".to_vec());
    let mut x = Vec::new();
    push_right_aligned(&mut x, 123456789, 8);
    assert_eq!(x, b"123456789".to_vec());
    assert_eq!(dec_len(u64::MAX), 20);
    assert_eq!(dec_len(0), 1);
}

#[test]
fn meminfo_text_lines() {
    let text = String::from_utf8(generate_meminfo(source())).unwrap();
    let lines: Vec<&str> = text.lines().collect();
    assert_eq!(lines.len(), 44);
    assert_eq!(lines[0], "MemTotal:         131072 kB");
    assert_eq!(lines[1], "MemFree:           80000 kB");
    assert_eq!(lines[2], "MemAvailable:      80000 kB");
    assert_eq!(lines[6], "Active:            51072 kB");
    assert_eq!(lines[18], "AnonPages:         18304 kB");
    assert_eq!(lines[36], "HugePages_Total:       0");
    assert_eq!(lines[40], "Hugepagesize:       2048 kB");
    assert_eq!(lines[43], "DirectMap1G:           0 kB");
    assert_eq!(text.len(), 1220);
}

#[test]
fn meminfo_when_memory_is_all_free() {
    let s = MeminfoSource { memory_size: 0x10000, page_size: 4096, free_frames: 100 };
    let text = String::from_utf8(generate_meminfo(s)).unwrap();
    let lines: Vec<&str> = text.lines().collect();
    assert_eq!(lines[6], "Active:                0 kB");
    assert_eq!(lines[18], "AnonPages:             0 kB");
}

#[test]
fn procfs_meminfo_file() {
    let f = ProcMeminfo;
    let mut buf = [0xffu8; 30];
    assert_eq!(f.read(source(), &mut buf), 30);
    assert_eq!(&buf[..28], b"MemTotal:         131072 kB\n");
    let mut big = vec![0u8; 2000];
    assert_eq!(f.read(source(), &mut big), 1220);
    assert_eq!(big[1220], 0);
    assert_eq!(f.get_size(source()), 1220);
    let st = f.get_stat(source());
    assert_eq!(st.st_size, 1220);
    assert_eq!(st.st_mode, S_IFREG | 0o444);
    assert_eq!(st.st_ino, 2);
    assert_eq!(f.read_user(source(), Some(10), 5), b"     ".to_vec());
    assert_eq!(f.read_user(source(), Some(1215), 100), b"0 kB\n".to_vec());
    assert_eq!(f.read_user(source(), Some(5000), 100), Vec::<u8>::new());
    assert_eq!(f.read_user(source(), None, 3), b"Mem".to_vec());
    assert_eq!(f.write(b"x"), 0);
    assert_eq!(f.unlink(false), Err(EPERM));
    assert_eq!(f.open_subfile(), Err(ENOTDIR));
    assert_eq!(f.lseek(3), Ok(0));
    assert_eq!(f.ioctl(1, 0), ENOTTY);
    assert_eq!(f.fcntl(1, 0), SUCCESS);
    assert!(f.readable() && !f.writable() && f.r_ready() && !f.w_ready());
}

#[test]
fn dev_meminfo_file() {
    let text = short_meminfo(source());
    assert_eq!(
        String::from_utf8(text).unwrap(),
        "MemTotal:         131072 kB\nMemFree:           80000 kB\nMemAvailable:      80000 kB\nCached:                0 kB\n"
    );
    let f = DevMeminfo;
    let mut buf = [0u8; 8];
    assert_eq!(f.read(source(), &mut buf), 8);
    assert_eq!(&buf, b"MemTotal");
    assert_eq!(f.read_user(source(), 500).len(), 112);
    assert_eq!(f.get_size(), 0);
    assert_eq!(f.get_stat().st_dev, DevNum { major: 0, minor: 4 });
    assert_eq!(f.lseek(0), Err(ESPIPE));
    assert_eq!(f.modify_size(1), Ok(()));
    assert_eq!(f.truncate_size(1), Err(EINVAL));
}

#[test]
fn hwclock_file() {
    let h = Hwclock;
    let mut buf = [7u8; 4];
    assert_eq!(h.read(&mut buf), 0);
    assert_eq!(buf, [7u8; 4]);
    assert_eq!(h.write_user(None, 17), 17);
    assert_eq!(h.read_user(None, 17), 0);
    let st = h.get_stat();
    assert_eq!(st.st_rdev, DevNum { major: 10, minor: 135 });
    assert_eq!(st.st_mode, S_IFCHR | 0o666);
    assert_eq!(h.ioctl(0x7001, 0), SUCCESS);
    assert_eq!(h.fcntl(1, 1), EINVAL);
    assert_eq!(h.get_file_type(), DiskInodeType::File);
    assert_eq!(h.create("x", DiskInodeType::File), Err(EINVAL));
}

#[test]
fn rng_outputs() {
    let mut r = new_rng();
    assert_eq!(r.next_u64(), 0x6e789e6aa1b965f4);
    assert_eq!(r.next_u64(), 0x06c45d188009454f);
    let mut r = new_rng();
    assert_eq!(r.next_u32(), 2713282036);
    let mut r = new_rng();
    assert_eq!(r.positive_u32(), 926699317);
}

#[test]
fn fill_bytes_matches_successive_outputs() {
    let mut r = new_rng();
    let mut buf = [0u8; 11];
    r.fill_bytes(&mut buf);
    assert_eq!(&buf[..8], &[244, 101, 185, 161, 106, 158, 120, 110]);
    assert_eq!(&buf[8..], &[79, 69, 9]);
    let mut again = new_rng();
    let a = again.next_u64();
    let b = again.next_u64();
    assert_eq!(r.state, again.state);
    assert_eq!(&buf[..8], &a.to_le_bytes());
    assert_eq!(&buf[8..], &b.to_le_bytes()[..3]);
    let mut t = new_rng();
    let mut buf2 = [0u8; 3];
    assert!(t.try_fill_bytes(&mut buf2).is_ok());
}

#[test]
fn init_rng_adds_time() {
    let mut r = Rng { state: u64::MAX };
    init_rng(&mut r, 2);
    assert_eq!(r.state, 1);
}

#[test]
fn urandom_file() {
    let u = Urandom;
    let mut r = new_rng();
    let mut buf = [0u8; 8];
    assert_eq!(u.read(&mut r, &mut buf), 8);
    assert_eq!(u64::from_le_bytes(buf), 0x6e789e6aa1b965f4);
    let mut r2 = new_rng();
    let v = u.read_user(&mut r2, 3);
    assert_eq!(v, vec![244, 101, 185]);
    assert_eq!(u.write(b"abc"), 3);
    assert_eq!(u.get_stat().st_rdev, DevNum { major: 1, minor: 5 });
}

#[test]
fn timerfd_counts_expirations() {
    let mut t = TimerFd::new();
    assert!(!t.is_ready() && !t.armed);
    t.set_time(0, &TimeSpec { tv_sec: 1, tv_nsec: 0 });
    assert!(t.armed);
    t.expirations = 0x0102;
    assert!(t.r_ready());
    let mut buf = [0xaau8; 10];
    assert_eq!(t.read(&mut buf), 8);
    assert_eq!(&buf[..8], &[2, 1, 0, 0, 0, 0, 0, 0]);
    assert_eq!(buf[8], 0xaa);
    assert_eq!(t.expirations, 0);
    let mut cur = TimeSpec { tv_sec: 9, tv_nsec: 9 };
    t.get_time(&mut cur);
    assert_eq!(cur, TimeSpec { tv_sec: 0, tv_nsec: 0 });
}

#[test]
fn timerfd_is_a_read_only_character_device() {
    let mut t = TimerFd::new();
    t.expirations = 0x0302;
    assert!(t.readable() && !t.writable());
    assert_eq!(t.read_user(3), vec![2, 3, 0]);
    assert_eq!(t.expirations, 0);
    t.expirations = 5;
    assert_eq!(t.read_user(64), vec![5, 0, 0, 0, 0, 0, 0, 0]);
    assert_eq!(t.write_user(None, 4), 0);
    let st = t.get_stat();
    assert_eq!(st.st_dev, DevNum { major: 0, minor: 14 });
    assert_eq!(st.st_mode, S_IFCHR | 0o444);
    assert_eq!(t.get_size(), 0);
    assert_eq!(t.get_file_type(), DiskInodeType::File);
    let c = t.deep_clone();
    assert!(c.expirations == 0 && !c.armed);
    let o = t.open(0, false);
    assert!(o.expirations == 0 && !o.armed);
    assert_eq!(t.open_subfile(), Err(ENOTDIR));
    assert_eq!(t.create("x", DiskInodeType::File), Err(EINVAL));
    assert_eq!(t.link_child("x"), Err(EINVAL));
    assert_eq!(t.unlink(true), Err(EINVAL));
    assert_eq!(t.lseek(4), Err(ESPIPE));
    assert_eq!(t.modify_size(1), Ok(()));
    assert_eq!(t.truncate_size(0), Err(EINVAL));
    assert_eq!(t.oom(), 0);
    assert!(!t.hang_up());
    assert_eq!(t.fcntl(1, 0), EINVAL);
}
