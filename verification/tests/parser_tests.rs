use polychromatic_effects::proc_bus_input_devices::{
    parse_input_devices, DeviceParseFault,
};
use polychromatic_effects::PolychromaticError;

fn parse_fault(text: &str) -> DeviceParseFault {
    match parse_input_devices(text) {
        Err(PolychromaticError::CannotParseDevice(f)) => f,
        other => panic!("expected a parse fault, got {:?}", other),
    }
}

#[test]
fn parses_one_full_record() {
    let text = "I: Bus=0003 Vendor=1532 Product=0227 Version=0111\n\
                N: Name=\"Razer Razer Huntsman\"\n\
                H: Handlers=sysrq kbd leds\n";
    let devices = parse_input_devices(text).unwrap();
    assert_eq!(devices.len(), 1);
    let d = &devices[0];
    assert_eq!(d.id.bus_type, 0x0003);
    assert_eq!(d.id.vendor, 0x1532);
    assert_eq!(d.id.product, 0x0227);
    assert_eq!(d.id.version, 0x0111);
    assert_eq!(d.name, "Razer Razer Huntsman");
    assert_eq!(d.unparsed_fields.len(), 1);
    assert_eq!(d.unparsed_fields[0].tag, 'H');
    assert_eq!(d.unparsed_fields[0].value, "Handlers=sysrq kbd leds");
}

#[test]
fn parses_blank_line_separated_records() {
    let text = "I: Bus=0003 Vendor=1532 Product=0227 Version=0111\nN: Name=First\n\n\
                I: Bus=0003 Vendor=046d Product=c31c Version=0110\nN: Name=Second\n";
    let devices = parse_input_devices(text).unwrap();
    assert_eq!(devices.len(), 2);
    assert_eq!(devices[0].name, "First");
    assert_eq!(devices[1].name, "Second");
    assert_eq!(devices[1].id.vendor, 0x046D);
}

#[test]
fn empty_document_yields_no_devices() {
    assert_eq!(parse_input_devices("").unwrap().len(), 0);
    assert_eq!(parse_input_devices("\n\n").unwrap().len(), 0);
}

#[test]
fn record_missing_identity_line_fails() {
    let fault = parse_fault("N: Name=MyDevice\n");
    assert_eq!(fault, DeviceParseFault::MissingIdentity);
    assert_eq!(fault.description(), "Device ID field is required");
}

#[test]
fn record_missing_name_line_fails() {
    let fault = parse_fault("I: Bus=0003 Vendor=1532 Product=0227 Version=0111\n");
    assert_eq!(fault, DeviceParseFault::MissingName);
    assert_eq!(fault.description(), "Device name field is required");
}

#[test]
fn bare_name_is_taken_verbatim() {
    let text = "I: Bus=0003 Vendor=1532 Product=0227 Version=0111\nN: Name=MyDevice\n";
    let devices = parse_input_devices(text).unwrap();
    assert_eq!(devices[0].name, "MyDevice");
}

#[test]
fn quoted_name_has_quotes_stripped() {
    let text = "I: Bus=0003 Vendor=1532 Product=0227 Version=0111\nN: Name=\"My Device\"\n";
    let devices = parse_input_devices(text).unwrap();
    assert_eq!(devices[0].name, "My Device");
}

#[test]
fn name_without_prefix_fails() {
    let fault = parse_fault("I: Bus=0003 Vendor=1532 Product=0227 Version=0111\nN: MyDevice\n");
    assert_eq!(fault, DeviceParseFault::NamePrefix);
    assert_eq!(fault.description(), "Name field invalid prefix");
}

#[test]
fn malformed_field_line_fails() {
    let fault = parse_fault("Ix Bus=0003\n");
    assert_eq!(fault, DeviceParseFault::FieldSyntax);
    assert_eq!(fault.description(), "Failed to parse device field");
    let fault = parse_fault("I\n");
    assert_eq!(fault, DeviceParseFault::FieldSyntax);
}

#[test]
fn identity_token_without_equals_fails() {
    let fault = parse_fault("I: Bus 0003\nN: Name=X\n");
    assert_eq!(fault, DeviceParseFault::IdTokenSyntax);
    assert_eq!(fault.description(), "Device ID field malformed");
}

#[test]
fn identity_value_not_hex_fails() {
    let fault = parse_fault("I: Bus=00ZZ Vendor=1532 Product=0227 Version=0111\nN: Name=X\n");
    assert_eq!(fault, DeviceParseFault::IdNumber);
    assert_eq!(
        fault.description(),
        "ID field could not parse ID number from subfield"
    );
    let fault = parse_fault("I: Bus= Vendor=1532 Product=0227 Version=0111\nN: Name=X\n");
    assert_eq!(fault, DeviceParseFault::IdNumber);
    let fault = parse_fault("I: Bus=10000 Vendor=1532 Product=0227 Version=0111\nN: Name=X\n");
    assert_eq!(fault, DeviceParseFault::IdNumber);
}

#[test]
fn identity_missing_required_subfields_fails() {
    let fault = parse_fault("I: Vendor=1532 Product=0227 Version=0111\nN: Name=X\n");
    assert_eq!(fault, DeviceParseFault::MissingBus);
    assert_eq!(
        fault.description(),
        "ID field could not find bustype subfield"
    );
    let fault = parse_fault("I: Bus=0003 Product=0227 Version=0111\nN: Name=X\n");
    assert_eq!(fault, DeviceParseFault::MissingVendor);
    let fault = parse_fault("I: Bus=0003 Vendor=1532 Version=0111\nN: Name=X\n");
    assert_eq!(fault, DeviceParseFault::MissingProduct);
    let fault = parse_fault("I: Bus=0003 Vendor=1532 Product=0227\nN: Name=X\n");
    assert_eq!(fault, DeviceParseFault::MissingVersion);
}

#[test]
fn parsing_is_all_or_nothing() {
    let text = "I: Bus=0003 Vendor=1532 Product=0227 Version=0111\nN: Name=Good\n\n\
                I: Bus=0003 Vendor=1532 Product=0226\nN: Name=Bad\n";
    let fault = parse_fault(text);
    assert_eq!(fault, DeviceParseFault::MissingVersion);
}

#[test]
fn hex_values_accept_leading_zeros_and_letters() {
    let text = "I: Bus=0019 Vendor=0000 Product=00fF Version=ABCD\nN: Name=X\n";
    let devices = parse_input_devices(text).unwrap();
    assert_eq!(devices[0].id.bus_type, 0x19);
    assert_eq!(devices[0].id.vendor, 0);
    assert_eq!(devices[0].id.product, 0xFF);
    assert_eq!(devices[0].id.version, 0xABCD);
}

#[test]
fn later_identity_subfield_wins() {
    let text = "I: Bus=0003 Vendor=1532 Vendor=046d Product=0227 Version=0111\nN: Name=X\n";
    let devices = parse_input_devices(text).unwrap();
    assert_eq!(devices[0].id.vendor, 0x046D);
}

#[test]
fn carriage_returns_before_newlines_are_stripped() {
    let text = "I: Bus=0003 Vendor=1532 Product=0227 Version=0111\r\nN: Name=X\r\n";
    let devices = parse_input_devices(text).unwrap();
    assert_eq!(devices[0].name, "X");
    assert_eq!(devices[0].id.product, 0x0227);
}
