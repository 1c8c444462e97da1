use lib::simple_fs::{header_step, Error, FileSystem, HeaderStep, MemDisk};

#[test]
fn test_simple() {
    let mut fs = FileSystem::new(MemDisk::new(0x1000), 512 * 0x1000).unwrap();
    // create test
    let content = (0..0x3ff).map(|i| i as u8).collect::<Vec<_>>();
    assert!(fs.create("a", content.as_ref()).is_ok());
    assert!(fs.create("b", content.as_ref()).is_ok());

    let fs = FileSystem::load(fs.close()).unwrap();
    // Read test
    let mut readbuf = vec![0; 0x3ff];

    let a = fs.open("a").unwrap();
    for i in 0..content.len() {
        for j in 1..content.len() - i {
            a.read(&fs, i, &mut readbuf[..j]).unwrap();
            assert_eq!(&readbuf[..j], &content[i..i + j]);
        }
    }

    let b = fs.open("b").unwrap();
    for i in 0..content.len() {
        for j in 1..content.len() - i {
            b.read(&fs, i, &mut readbuf[..j]).unwrap();
            assert_eq!(&readbuf[..j], &content[i..i + j]);
        }
    }
    // Write test
    let mut fs = fs;
    let content = (0..0x3ff).map(|i| (0x3ff - i) as u8).collect::<Vec<_>>();
    let a = fs.open("a").unwrap();
    for i in 0..content.len() {
        for j in 1..content.len() - i {
            a.write(&mut fs, i, &content[i..i + j]).unwrap();
            a.read(&fs, i, &mut readbuf[..j]).unwrap();
            assert_eq!(&readbuf[..j], &content[i..i + j]);
        }
    }

    let b = fs.open("b").unwrap();
    for i in 0..content.len() {
        for j in 1..content.len() - i {
            b.write(&mut fs, i, &content[i..i + j]).unwrap();
            b.read(&fs, i, &mut readbuf[..j]).unwrap();
            assert_eq!(&readbuf[..j], &content[i..i + j]);
        }
    }
    let fs = FileSystem::load(fs.close()).unwrap();
    // Read test - persistent
    let mut readbuf = vec![0; 0x3ff];

    let a = fs.open("a").unwrap();
    for i in 0..content.len() {
        for j in 1..content.len() - i {
            a.read(&fs, i, &mut readbuf[..j]).unwrap();
            assert_eq!(&readbuf[..j], &content[i..i + j]);
        }
    }

    let b = fs.open("b").unwrap();
    for i in 0..content.len() {
        for j in 1..content.len() - i {
            b.read(&fs, i, &mut readbuf[..j]).unwrap();
            assert_eq!(&readbuf[..j], &content[i..i + j]);
        }
    }
}

#[test]
fn empty_transfers_at_sector_boundaries() {
    let mut fs = FileSystem::new(MemDisk::new(0x40), 512 * 0x40).unwrap();
    assert!(fs.create("c", &[7u8; 600]).is_ok());
    let c = fs.open("c").unwrap();
    let mut buf = [9u8; 4];
    // At the end of the file nothing is left to read or write.
    assert_eq!(c.read(&fs, 1024, &mut buf), Ok(0));
    assert_eq!(buf, [9u8; 4]);
    assert_eq!(c.write(&mut fs, 1024, &[1, 2]), Ok(0));
    let mut empty: [u8; 0] = [];
    assert_eq!(c.read(&fs, 0, &mut empty), Ok(0));
    assert_eq!(c.read(&fs, 510, &mut buf), Ok(4));
    assert_eq!(buf, [7u8; 4]);
}

#[test]
fn short_write_keeps_the_rest_of_the_sector() {
    let mut fs = FileSystem::new(MemDisk::new(16), 512 * 16).unwrap();
    let content = (0..0x3ff).map(|i| (i % 251) as u8).collect::<Vec<_>>();
    fs.create("f", &content).unwrap();
    let f = fs.open("f").unwrap();
    assert_eq!(f.write(&mut fs, 0, &[7]), Ok(1));
    let mut back = vec![0u8; 0x3ff];
    assert_eq!(f.read(&fs, 0, &mut back), Ok(0x3ff));
    assert_eq!(back[0], 7);
    assert_eq!(back[1], content[1]);
    assert_eq!(&back[1..], &content[1..]);
    // A write that ends inside the second sector keeps that sector's tail.
    assert_eq!(f.write(&mut fs, 510, &[1, 2, 3, 4]), Ok(4));
    assert_eq!(f.read(&fs, 0, &mut back), Ok(0x3ff));
    assert_eq!(&back[510..514], &[1, 2, 3, 4]);
    assert_eq!(&back[514..], &content[514..]);
}

#[test]
fn open_on_a_fresh_disk_finds_nothing() {
    let fs = FileSystem::new(MemDisk::new(4), 512 * 4).unwrap();
    let disk = fs.close();
    let fs = FileSystem::load(disk).unwrap();
    assert!(fs.open("missing").is_none());
    assert!(fs.open("").is_none());
}

#[test]
fn header_steps() {
    let mut h = [0u8; 512];
    h[0] = 2;
    h[8] = 10;
    h[16] = b'a';
    h[17] = b'b';
    assert_eq!(header_step(&h, b"ab"), HeaderStep::Found(10));
    assert_eq!(header_step(&h, b"x"), HeaderStep::Next(512));
    h[8] = 0;
    h[9] = 2;
    assert_eq!(header_step(&h, b"x"), HeaderStep::Next(512));
    h[8] = 1;
    assert_eq!(header_step(&h, b"x"), HeaderStep::Next(1024));
    h[16] = 0xff;
    assert_eq!(header_step(&h, b"ab"), HeaderStep::BadName);
}

#[test]
fn failed_create_keeps_the_files() {
    let mut fs = FileSystem::new(MemDisk::new(32), 512 * 32).unwrap();
    let content = (0..700).map(|i| (i % 13) as u8).collect::<Vec<_>>();
    fs.create("kept", &content).unwrap();
    let long = "n".repeat(497);
    assert_eq!(fs.create(&long, &[1, 2, 3]), Err(Error::FsError));
    assert_eq!(fs.create("", &[1]), Err(Error::FsError));
    assert_eq!(fs.create("huge", &vec![0u8; 512 * 40]), Err(Error::FsError));
    let f = fs.open("kept").unwrap();
    assert_eq!(f.size(), 700);
    let mut back = vec![0u8; 700];
    assert_eq!(f.read(&fs, 0, &mut back), Ok(700));
    assert_eq!(back, content);
    assert!(fs.open(&long).is_none());
    // The free space is still usable.
    fs.create("next", &[9; 10]).unwrap();
    assert_eq!(fs.open("next").unwrap().size(), 10);
}

#[test]
fn load_reports_the_disk_error_and_finds_the_same_files() {
    assert!(matches!(FileSystem::load(MemDisk::new(0)), Err(Error::DiskError)));
    assert!(matches!(FileSystem::load(MemDisk::new(2)), Err(Error::FsError)));
    let mut fs = FileSystem::new(MemDisk::new(8), 512 * 8).unwrap();
    fs.create("x", &[1, 2, 3]).unwrap();
    let f = fs.open("x").unwrap();
    assert_eq!(f.write(&mut fs, 1, &[9]), Ok(1));
    let again = FileSystem::load(fs.close()).unwrap();
    let g = again.open("x").unwrap();
    assert_eq!(g.size(), 3);
    let mut back = [0u8; 3];
    assert_eq!(g.read(&again, 0, &mut back), Ok(3));
    assert_eq!(back, [1, 9, 3]);
}
