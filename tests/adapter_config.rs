use bluespy::adapter::{
    address_command, class_command, is_valid_class_format, linksec_command, name_command,
    ssp_commands, ToolCommand,
};

fn words(c: &ToolCommand) -> Vec<String> {
    let mut v = vec![c.program.clone()];
    v.extend(c.args.iter().cloned());
    v
}

#[test]
fn check_valid_class() {
    assert!(is_valid_class_format("0xA1B2C3"))
}

#[test]
fn check_invalid_class_upper() {
    assert!(!is_valid_class_format("0x002540AB"))
}

#[test]
fn check_invalid_class_lower() {
    assert!(!is_valid_class_format("0x0025"))
}

#[test]
fn class_needs_hex_prefix() {
    assert!(!is_valid_class_format("A1B2C3"));
    assert!(!is_valid_class_format("0xA1B2CG"));
    assert!(is_valid_class_format("0x002540"));
}

#[test]
fn class_command_for_valid_class() {
    let c = class_command("hci0", "0x002540").unwrap();
    assert_eq!(words(&c), vec!["hciconfig", "hci0", "class", "0x002540"]);
    assert!(class_command("hci0", "0x0025").is_none());
}

#[test]
fn ssp_commands_switch_io_capability() {
    let (a, b) = ssp_commands("hci1", true);
    assert_eq!(words(&a), vec!["sudo", "btmgmt", "--index", "hci1", "io-cap", "1"]);
    assert_eq!(words(&b), vec!["sudo", "btmgmt", "--index", "hci1", "ssp", "on"]);
    let (a, b) = ssp_commands("hci1", false);
    assert_eq!(words(&a), vec!["sudo", "btmgmt", "--index", "hci1", "io-cap", "3"]);
    assert_eq!(words(&b), vec!["sudo", "btmgmt", "--index", "hci1", "ssp", "off"]);
}

#[test]
fn linksec_and_name_commands() {
    let c = linksec_command("hci0", false);
    assert_eq!(words(&c), vec!["sudo", "btmgmt", "--index", "hci0", "linksec", "false"]);
    let c = linksec_command("hci0", true);
    assert_eq!(words(&c), vec!["sudo", "btmgmt", "--index", "hci0", "linksec", "true"]);
    let c = name_command("hci0", "keyboard");
    assert_eq!(words(&c), vec!["hciconfig", "hci0", "name", "keyboard"]);
}

#[test]
fn address_command_writes_upper_case() {
    let c = address_command("hci0", "a1:b2:c3:d4:e5:f6").unwrap();
    assert_eq!(words(&c), vec!["bdaddr", "-i", "hci0", "A1:B2:C3:D4:E5:F6"]);
    assert!(address_command("hci0", "A1:B2:C3").is_none());
}
