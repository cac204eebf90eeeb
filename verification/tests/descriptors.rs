use regedit::Config;
use regedit::ErrorKind;
use regedit::RegeditError;
use regedit::RegistryEntry;
use regedit::RegistryKeyType;
use regedit::RegistryValue;
use regedit::REG_DWORD;
use regedit::REG_SZ;

/// A stand-in for one location of the store: the tagged bytes it holds, if
/// any, with the host API's read protocol (query the tag, then the bytes).
struct StoreSlot {
    stored: Option<(u32, Vec<u8>)>,
}

impl StoreSlot {
    fn empty() -> Self {
        StoreSlot { stored: None }
    }

    fn query(&self) -> Result<(u32, Vec<u8>), RegeditError> {
        match &self.stored {
            Some((tag, bytes)) => Ok((*tag, bytes.clone())),
            None => Err(RegeditError::with_kind(ErrorKind::Query, "value not found")),
        }
    }

    fn set(&mut self, tag: u32, bytes: Vec<u8>) {
        self.stored = Some((tag, bytes));
    }
}

fn read_slot(slot: &StoreSlot) -> Result<RegistryValue, RegeditError> {
    let (tag, bytes) = slot.query()?;
    RegistryValue::new_from_value(tag, bytes)
}

#[test]
fn dword_entry_end_to_end() {
    let entry = RegistryEntry {
        registry_key_type: RegistryKeyType::HkeyCurrentUser,
        registry_key_name: "Sample Key Name".to_string(),
        registry_value_name: "Sample Key Value".to_string(),
        registry_value: RegistryValue::Dword(1),
    };
    let mut slot = StoreSlot::empty();

    // The value does not exist yet: the read fails with a query error,
    // which is reported and not fatal.
    let e = read_slot(&slot).unwrap_err();
    assert_eq!(e.kind, ErrorKind::Query);

    // The write encodes the template under its canonical tag.
    let tag = entry.registry_value().size();
    let bytes = entry.registry_value().val_as_vec_u8();
    assert_eq!(tag, REG_DWORD);
    assert_eq!(bytes, vec![1, 0, 0, 0]);
    slot.set(tag, bytes);

    // A subsequent read returns the typed value.
    assert_eq!(read_slot(&slot).unwrap(), RegistryValue::Dword(1));
}

#[test]
fn string_entry_end_to_end() {
    let entry = RegistryEntry {
        registry_key_type: RegistryKeyType::HkeyCurrentUser,
        registry_key_name: "Other Sample Key Name".to_string(),
        registry_value_name: "Other Sample Key Value".to_string(),
        registry_value: RegistryValue::Sz("Example string".to_string()),
    };
    let mut slot = StoreSlot::empty();

    let tag = entry.registry_value().size();
    let bytes = entry.registry_value().val_as_vec_u8();
    assert_eq!(tag, REG_SZ);
    assert_eq!(bytes, b"Example string".to_vec());
    slot.set(tag, bytes);

    assert_eq!(
        read_slot(&slot).unwrap(),
        RegistryValue::Sz("Example string".to_string())
    );
}

#[test]
fn entry_getters() {
    let entry = RegistryEntry {
        registry_key_type: RegistryKeyType::HkeyLocalMachine,
        registry_key_name: "Some\\Key".to_string(),
        registry_value_name: "SomeValue".to_string(),
        registry_value: RegistryValue::Qword(7),
    };
    assert_eq!(*entry.registry_key_type(), RegistryKeyType::HkeyLocalMachine);
    assert_eq!(entry.registry_key_name(), "Some\\Key");
    assert_eq!(entry.registry_value_name(), "SomeValue");
    assert_eq!(*entry.registry_value(), RegistryValue::Qword(7));
}

#[test]
fn details_block_format() {
    let entry = RegistryEntry {
        registry_key_type: RegistryKeyType::HkeyCurrentUser,
        registry_key_name: "Sample Key Name".to_string(),
        registry_value_name: "Sample Key Value".to_string(),
        registry_value: RegistryValue::Dword(1),
    };
    let details = entry.current_registry_value_details(&RegistryValue::Dword(1));
    assert_eq!(
        details,
        "Registry Key Type: HkeyCurrentUser\n\
         Registry Key Name: Sample Key Name\n\
         Registry Value Name: Sample Key Value\n\
         Registry Value Type: REG_DWORD\n\
         Registry Value: 1\n"
    );
}

#[test]
fn generated_config_holds_the_two_samples() {
    let conf = Config::generate();
    assert!(conf.is_generated());
    let entries = conf.registry();
    assert_eq!(entries.len(), 2);

    assert_eq!(*entries[0].registry_key_type(), RegistryKeyType::HkeyCurrentUser);
    assert_eq!(entries[0].registry_key_name(), "Sample Key Name");
    assert_eq!(entries[0].registry_value_name(), "Sample Key Value");
    assert_eq!(*entries[0].registry_value(), RegistryValue::Dword(1));

    assert_eq!(*entries[1].registry_key_type(), RegistryKeyType::HkeyCurrentUser);
    assert_eq!(entries[1].registry_key_name(), "Other Sample Key Name");
    assert_eq!(entries[1].registry_value_name(), "Other Sample Key Value");
    assert_eq!(
        *entries[1].registry_value(),
        RegistryValue::Sz("Example string".to_string())
    );
}

#[test]
fn key_type_names() {
    assert_eq!(RegistryKeyType::HkeyClassesRoot.name(), "HkeyClassesRoot");
    assert_eq!(RegistryKeyType::HkeyCurrentUser.name(), "HkeyCurrentUser");
    assert_eq!(RegistryKeyType::HkeyLocalMachine.name(), "HkeyLocalMachine");
    assert_eq!(RegistryKeyType::HkeyUsers.name(), "HkeyUsers");
    assert_eq!(RegistryKeyType::HkeyCurrentConfig.name(), "HkeyCurrentConfig");
}

#[test]
fn error_constructors() {
    let e = RegeditError::new("something went wrong");
    assert_eq!(e.kind, ErrorKind::Other);
    assert_eq!(e.message(), "something went wrong");

    let e = RegeditError::with_kind(ErrorKind::Open, "cannot open key");
    assert_eq!(e.kind(), ErrorKind::Open);
    assert_eq!(e.message(), "cannot open key");
}
