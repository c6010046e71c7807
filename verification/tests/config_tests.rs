use neonex::config::{
    next_native_terminal_value, recover_config, ConfigTag, NeoNexStartupConfig,
    NeoNexStartupConfigSet,
};

#[test]
fn entries_are_keyed_by_tag_alone() {
    let mut set = NeoNexStartupConfigSet::new();
    assert!(set.insert(NeoNexStartupConfig::NativeTerminal(true)));
    // A second NativeTerminal entry is a duplicate whatever its payload.
    assert!(!set.insert(NeoNexStartupConfig::NativeTerminal(false)));
    assert_eq!(set.len(), 1);
    assert_eq!(set.native_terminal(), Some(true));
}

#[test]
fn different_tags_coexist() {
    let mut set = NeoNexStartupConfigSet::new();
    assert!(set.insert(NeoNexStartupConfig::Bla(String::from("BlaBlabllalalaa"))));
    assert!(set.insert(NeoNexStartupConfig::Test1(19555)));
    assert_eq!(set.len(), 2);
    assert!(set.contains_tag(ConfigTag::Bla));
    assert!(set.contains_tag(ConfigTag::Test1));
    assert!(!set.contains_tag(ConfigTag::NativeTerminal));
}

#[test]
fn find_tag_locates_the_entry() {
    let mut set = NeoNexStartupConfigSet::new();
    set.insert(NeoNexStartupConfig::Test1(7));
    set.insert(NeoNexStartupConfig::NativeTerminal(false));
    assert_eq!(set.find_tag(ConfigTag::NativeTerminal), Some(1));
    assert_eq!(set.find_tag(ConfigTag::Bla), None);
    assert_eq!(set.native_terminal(), Some(false));
}

#[test]
fn default_set_is_empty() {
    let set = NeoNexStartupConfigSet::default();
    assert_eq!(set.len(), 0);
    assert_eq!(set.native_terminal(), None);
}

#[test]
fn parsed_store_is_taken_as_it_is() {
    let mut set = NeoNexStartupConfigSet::new();
    set.insert(NeoNexStartupConfig::Test1(1));
    let r = recover_config(Some(set.clone()), 42);
    assert!(!r.reset_store);
    assert_eq!(r.set, set);
}

#[test]
fn corrupt_store_resets_to_defaults() {
    let r = recover_config(None, 17);
    assert!(r.reset_store);
    assert_eq!(r.set.len(), 0);
}

#[test]
fn absent_store_needs_no_reset() {
    let r = recover_config(None, 0);
    assert!(!r.reset_store);
    assert_eq!(r.set.len(), 0);
}

#[test]
fn native_terminal_toggle_flips_the_last_entry() {
    let empty = NeoNexStartupConfigSet::new();
    assert!(!next_native_terminal_value(&empty));

    let mut with_true = NeoNexStartupConfigSet::new();
    with_true.insert(NeoNexStartupConfig::NativeTerminal(true));
    assert!(!next_native_terminal_value(&with_true));

    let mut with_false = NeoNexStartupConfigSet::new();
    with_false.insert(NeoNexStartupConfig::NativeTerminal(false));
    assert!(next_native_terminal_value(&with_false));

    let mut other_last = NeoNexStartupConfigSet::new();
    other_last.insert(NeoNexStartupConfig::NativeTerminal(false));
    other_last.insert(NeoNexStartupConfig::Test1(3));
    assert!(!next_native_terminal_value(&other_last));
}
