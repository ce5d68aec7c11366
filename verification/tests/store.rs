use std::str::FromStr;

use boot_switch::efi::{VariableId, BACKUP_PREVIOUSBOOT_NAME, REFIND_PREVIOUSBOOT_NAME};
use efivar::efi::{Variable, VariableFlags};

#[test]
fn identities_are_names_the_variable_store_takes() {
    let target = Variable::from_str(VariableId::Target.name()).unwrap();
    assert_eq!(target.name(), "PreviousBoot");
    assert_eq!(target.vendor().to_string(), "36d08fa7-cf0b-42f5-8f14-68df73ed3740");

    let backup = Variable::from_str(VariableId::Backup.name()).unwrap();
    assert_eq!(backup.name(), "PreviousBootBackup");
    assert_eq!(backup.vendor().to_string(), "2bd809f0-cba2-4074-bbe8-56a655f07262");

    assert_ne!(target, backup);
}

#[test]
fn identities_are_shown_as_the_variable_store_shows_them() {
    for name in [REFIND_PREVIOUSBOOT_NAME, BACKUP_PREVIOUSBOOT_NAME] {
        assert_eq!(Variable::from_str(name).unwrap().to_string(), name);
    }
}

#[test]
fn flags_pass_as_their_bits() {
    for bits in [0u32, 0x1, 0x7, 0x27, 0xff, 0x8000_0007, u32::MAX] {
        assert_eq!(VariableFlags::from_bits_retain(bits).bits(), bits);
    }
    assert_eq!(VariableFlags::default().bits(), 0x7);
}
