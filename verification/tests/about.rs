use systemsettings::views::about::{hostname_from, kernel_from, none_if_empty, processor_from, storage_fields};
use systemsettings::views::about::memtotal_values;

#[test]
fn hostname_trims_and_misses() {
    assert_eq!(hostname_from(Some("tontoo-pc\n")), "tontoo-pc");
    assert!(hostname_from(None).is_empty());
}

#[test]
fn processor_reads_model_name() {
    let cpuinfo = "processor\t: 0\nmodel name\t: Apple M1 Pro\nmodel name\t: Apple M1 Pro\n";
    assert_eq!(processor_from(Some(cpuinfo)), "Apple M1 Pro");
    assert!(processor_from(None).is_empty());
}

#[test]
fn kernel_trims() {
    assert_eq!(kernel_from(Some("6.12.1-arch1-1\n")), "6.12.1-arch1-1");
}

#[test]
fn processor_needs_the_exact_key() {
    assert_eq!(processor_from(Some("model\t: X\nmodel name:Y:Z\n")), "Y:Z");
    assert_eq!(processor_from(Some("vendor_id\t: GenuineIntel\n")), "");
}

#[test]
fn df_root_line_fields() {
    let output = "Filesystem     1B-blocks         Used    Available Use% Mounted on\n\
                  /dev/vda1    1000000000000 432000000000 568000000000  44% /\n\
                  tmpfs                8192            0         8192   0% /dev\n";
    let parsed = storage_fields(output).unwrap();
    assert_eq!(parsed.0, "/dev/vda1");
    assert_eq!(parsed.1, 432_000_000_000);
    assert_eq!(parsed.2, 1_000_000_000_000);
}

#[test]
fn df_without_root_or_with_bad_sizes() {
    assert!(storage_fields("").is_none());
    assert!(storage_fields("Filesystem 1B-blocks Used Available Use% Mounted on\n").is_none());
    assert!(storage_fields("header\ntmpfs 8192 0 8192 0% /dev\n").is_none());
    assert!(storage_fields("header\n/dev/sda1 big 12 1 1% /\n/dev/sdb1 10 5 5 50% /\n").is_none());
    // The header line is never read as data.
    assert!(storage_fields("/dev/sda1 10 5 5 50% /\n").is_none());
}

#[test]
fn empty_values_show_the_fallback() {
    assert_eq!(none_if_empty("", "—"), "—");
    assert_eq!(none_if_empty("16 GB", "—"), "16 GB");
}

#[test]
fn memtotal_values_in_order() {
    assert_eq!(memtotal_values(Some("MemTotal:       16777216 kB\n")), vec!["16777216".to_string()]);
    assert_eq!(
        memtotal_values(Some("MemFree: 1 kB\nMemTotal:\nMemTotal: x kB\n  MemTotal: 8 kB\n")),
        vec!["x".to_string(), "8".to_string()]
    );
    assert!(memtotal_values(None).is_empty());
}
