use update_informer::lifecycle::is_stale;
use update_informer::{AgeStep, Error, IoKind, Package, VersionFile};

/// One file on a disk that never fails by itself, and a clock in nanoseconds.
struct Disk {
    file: Option<(String, u128)>,
    now: u128,
    refuse: Option<IoKind>,
}

impl Disk {
    fn empty() -> Disk {
        Disk { file: None, now: 1_000, refuse: None }
    }

    fn holding(contents: &str) -> Disk {
        let mut disk = Disk::empty();
        disk.write(contents).expect("creates test file");
        disk.now += 250;
        disk
    }

    fn stat(&self) -> Result<Option<u128>, IoKind> {
        if let Some(kind) = self.refuse {
            return Err(kind);
        }
        match &self.file {
            Some((_, written_at)) => Ok(self.now.checked_sub(*written_at)),
            None => Err(IoKind::NotFound),
        }
    }

    fn write(&mut self, contents: &str) -> Result<(), IoKind> {
        if let Some(kind) = self.refuse {
            return Err(kind);
        }
        self.file = Some((contents.to_string(), self.now));
        Ok(())
    }

    fn remove(&mut self) -> Result<(), IoKind> {
        if let Some(kind) = self.refuse {
            return Err(kind);
        }
        match self.file.take() {
            Some(_) => Ok(()),
            None => Err(IoKind::NotFound),
        }
    }

    fn read(&self) -> Result<String, IoKind> {
        if let Some(kind) = self.refuse {
            return Err(kind);
        }
        match &self.file {
            Some((contents, _)) => Ok(contents.clone()),
            None => Err(IoKind::NotFound),
        }
    }
}

fn entry(version: &str) -> VersionFile {
    let dir = Ok(String::from("/tmp/update-informer-test"));
    VersionFile::in_dir(dir, "reg", &Package::new("repo"), version).unwrap()
}

fn last_modified(entry: &VersionFile, disk: &mut Disk) -> Result<u128, Error> {
    match entry.last_modified(disk.stat()) {
        AgeStep::Seed(contents) => VersionFile::seeded(disk.write(&contents)),
        AgeStep::Done(age) => age,
    }
}

fn write_version(disk: &mut Disk, version: &str) -> Result<(), Error> {
    VersionFile::write_version(disk.write(version))
}

fn recreate_file(disk: &mut Disk, version: &str) -> Result<(), Error> {
    let contents = VersionFile::recreate_file(disk.remove(), version)?;
    VersionFile::write_version(disk.write(&contents))
}

fn get_version(disk: &Disk) -> Result<String, Error> {
    VersionFile::get_version(disk.read())
}

#[test]
fn last_modified_file_exists_test() {
    let mut disk = Disk::holding("0.1.0");
    let version_file = entry("0.1.0");

    let last_modified = last_modified(&version_file, &mut disk);
    assert!(last_modified.is_ok());
    assert!(last_modified.unwrap() != 0);
}

#[test]
fn last_modified_file_not_exists_test() {
    let mut disk = Disk::empty();
    let version_file = entry("0.1.0");

    let last_modified = last_modified(&version_file, &mut disk);
    assert!(last_modified.is_ok());
    assert!(last_modified.unwrap() == 0);

    let version = disk.read().expect("read test file");
    assert_eq!(version, "0.1.0");
}

#[test]
fn recreate_file_test() {
    let mut disk = Disk::holding("0.1.0");

    let result = recreate_file(&mut disk, "1.0.0");
    assert!(result.is_ok());

    let version = disk.read().expect("read test file");
    assert_eq!(version, "1.0.0");
}

#[test]
fn write_version_test() {
    let mut disk = Disk::holding("1.0.0");

    let result = write_version(&mut disk, "2.0.0");
    assert!(result.is_ok());

    let version = disk.read().expect("read test file");
    assert_eq!(version, "2.0.0");
}

#[test]
fn get_version_file_exists_test() {
    let disk = Disk::holding("1.0.0");

    let result = get_version(&disk);
    assert!(result.is_ok());
    assert_eq!(result.unwrap(), "1.0.0");

    let version = disk.read().expect("read test file");
    assert_eq!(version, "1.0.0");
}

#[test]
fn get_version_file_not_exists_test() {
    let disk = Disk::empty();

    let result = get_version(&disk);
    assert!(result.is_err());
    assert_eq!(result, Err(Error::Io(IoKind::NotFound)));
}

#[test]
fn each_stat_has_its_step() {
    let version_file = entry("0.1.0");
    assert_eq!(version_file.last_modified(Ok(Some(42))), AgeStep::Done(Ok(42)));
    assert_eq!(version_file.last_modified(Ok(Some(0))), AgeStep::Done(Ok(0)));
    assert_eq!(version_file.last_modified(Ok(None)), AgeStep::Done(Ok(0)));
    assert_eq!(
        version_file.last_modified(Err(IoKind::NotFound)),
        AgeStep::Seed(String::from("0.1.0"))
    );
    assert_eq!(
        version_file.last_modified(Err(IoKind::PermissionDenied)),
        AgeStep::Done(Err(Error::Io(IoKind::PermissionDenied)))
    );
    assert_eq!(
        version_file.last_modified(Err(IoKind::Other)),
        AgeStep::Done(Err(Error::Io(IoKind::Other)))
    );
}

#[test]
fn seeding_ends_with_age_zero_or_the_failure() {
    assert_eq!(VersionFile::seeded(Ok(())), Ok(0));
    assert_eq!(VersionFile::seeded(Err(IoKind::Other)), Err(Error::Io(IoKind::Other)));
    assert_eq!(
        VersionFile::seeded(Err(IoKind::PermissionDenied)),
        Err(Error::Io(IoKind::PermissionDenied))
    );
}

#[test]
fn age_is_the_time_since_the_write() {
    let mut disk = Disk::empty();
    let version_file = entry("0.1.0");
    write_version(&mut disk, "3.0.0").unwrap();
    disk.now += 7_000_000_000;
    assert_eq!(last_modified(&version_file, &mut disk), Ok(7_000_000_000));
    disk.now += 1;
    assert_eq!(last_modified(&version_file, &mut disk), Ok(7_000_000_001));
    assert_eq!(get_version(&disk), Ok(String::from("3.0.0")));
}

#[test]
fn a_file_from_the_future_has_age_zero() {
    let mut disk = Disk::holding("0.1.0");
    disk.now = 5;
    let version_file = entry("0.1.0");
    assert_eq!(last_modified(&version_file, &mut disk), Ok(0));
    assert_eq!(get_version(&disk), Ok(String::from("0.1.0")));
}

#[test]
fn a_refused_stat_is_reported_and_nothing_is_seeded() {
    let mut disk = Disk::empty();
    disk.refuse = Some(IoKind::PermissionDenied);
    let version_file = entry("0.1.0");
    assert_eq!(
        last_modified(&version_file, &mut disk),
        Err(Error::Io(IoKind::PermissionDenied))
    );
    assert!(disk.file.is_none());
}

#[test]
fn write_then_read_gives_the_same_text() {
    let mut disk = Disk::empty();
    for version in ["", "1.0.0", "2.0.0-beta.1+build", " spaced \n", "v\u{e9}rsion"] {
        assert_eq!(write_version(&mut disk, version), Ok(()));
        assert_eq!(get_version(&disk), Ok(version.to_string()));
    }
}

#[test]
fn writing_replaces_and_does_not_append() {
    let mut disk = Disk::holding("10.20.30");
    write_version(&mut disk, "1").unwrap();
    assert_eq!(get_version(&disk), Ok(String::from("1")));
}

#[test]
fn recreating_a_missing_file_fails_and_writes_nothing() {
    let mut disk = Disk::empty();
    assert_eq!(recreate_file(&mut disk, "1.0.0"), Err(Error::Io(IoKind::NotFound)));
    assert!(disk.file.is_none());
    assert_eq!(
        VersionFile::recreate_file(Err(IoKind::PermissionDenied), "1.0.0"),
        Err(Error::Io(IoKind::PermissionDenied))
    );
    assert_eq!(VersionFile::recreate_file(Ok(()), "1.0.0"), Ok(String::from("1.0.0")));
}

#[test]
fn failures_of_reading_and_writing_are_reported() {
    assert_eq!(VersionFile::write_version(Ok(())), Ok(()));
    assert_eq!(VersionFile::write_version(Err(IoKind::Other)), Err(Error::Io(IoKind::Other)));
    assert_eq!(
        VersionFile::get_version(Err(IoKind::PermissionDenied)),
        Err(Error::Io(IoKind::PermissionDenied))
    );
    assert_eq!(VersionFile::get_version(Ok(String::new())), Ok(String::new()));
}

#[test]
fn first_run_then_update() {
    let mut disk = Disk::empty();
    let version_file = entry("0.1.0");
    assert_eq!(version_file.file_name(), "reg-repo-latest-version");

    assert_eq!(last_modified(&version_file, &mut disk), Ok(0));
    assert_eq!(get_version(&disk), Ok(String::from("0.1.0")));

    disk.now += 10;
    assert_eq!(write_version(&mut disk, "2.0.0"), Ok(()));
    assert_eq!(get_version(&disk), Ok(String::from("2.0.0")));

    disk.now += 10;
    let age = last_modified(&version_file, &mut disk).unwrap();
    assert!(age != 0);
    assert_eq!(age, 10);
}

#[test]
fn stale_when_older_than_the_interval_or_brand_new() {
    let day: u128 = 86_400_000_000_000;
    assert!(is_stale(0, day));
    assert!(is_stale(0, 1));
    assert!(is_stale(0, 0));
    assert!(!is_stale(1, day));
    assert!(!is_stale(day, day));
    assert!(is_stale(day + 1, day));
    assert!(is_stale(1, 0));
}

#[test]
fn the_first_run_forces_one_lookup() {
    let mut disk = Disk::empty();
    let version_file = entry("0.1.0");
    let interval: u128 = 1_000_000;

    let age = last_modified(&version_file, &mut disk).unwrap();
    assert!(is_stale(age, interval));

    disk.now += 10;
    write_version(&mut disk, "0.2.0").unwrap();
    disk.now += 10;
    let age = last_modified(&version_file, &mut disk).unwrap();
    assert!(!is_stale(age, interval));
    assert_eq!(get_version(&disk), Ok(String::from("0.2.0")));
}
