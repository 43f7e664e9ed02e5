use aarch32_rt::target::str_has_prefix;
use aarch32_rt::target::Arch;
use aarch32_rt::target::Isa;
use aarch32_rt::target::Profile;
use aarch32_rt::target::TargetInfo;

#[test]
fn prefix_check_matches_by_characters() {
    assert!(str_has_prefix("armv7r-none-eabi", "armv7r-"));
    assert!(!str_has_prefix("armv7r-none-eabi", "armv7a-"));
    assert!(str_has_prefix("abc", ""));
    assert!(!str_has_prefix("ab", "abc"));
}

#[test]
fn arch_decodes_target_prefixes() {
    assert_eq!(Arch::get("armv4t-none-eabi"), Some(Arch::Armv4T));
    assert_eq!(Arch::get("armv5te-none-eabi"), Some(Arch::Armv5TE));
    assert_eq!(Arch::get("thumbv6m-none-eabi"), Some(Arch::Armv6M));
    assert_eq!(Arch::get("thumbv7m-none-eabi"), Some(Arch::Armv7M));
    assert_eq!(Arch::get("thumbv7em-none-eabihf"), Some(Arch::Armv7EM));
    assert_eq!(Arch::get("thumbv8m.base-none-eabi"), Some(Arch::Armv8MBase));
    assert_eq!(Arch::get("thumbv8m.main-none-eabi"), Some(Arch::Armv8MMain));
    assert_eq!(Arch::get("armv7r-none-eabi"), Some(Arch::Armv7R));
    assert_eq!(Arch::get("armebv7r-none-eabi"), Some(Arch::Armv7R));
    assert_eq!(Arch::get("armv8r-none-eabihf"), Some(Arch::Armv8R));
    assert_eq!(Arch::get("armv7a-none-eabi"), Some(Arch::Armv7A));
    assert_eq!(Arch::get("aarch64-unknown-linux-gnu"), Some(Arch::Armv8A));
    assert_eq!(Arch::get("aarch64be-unknown-linux-gnu"), Some(Arch::Armv8A));
    assert_eq!(Arch::get("x86_64-unknown-linux-gnu"), None);
    assert_eq!(Arch::get("armv7r"), None);
}

#[test]
fn profile_follows_architecture() {
    assert_eq!(Arch::Armv6M.profile(), Profile::M);
    assert_eq!(Arch::Armv8MMain.profile(), Profile::M);
    assert_eq!(Arch::Armv4T.profile(), Profile::Legacy);
    assert_eq!(Arch::Armv5TE.profile(), Profile::Legacy);
    assert_eq!(Arch::Armv7R.profile(), Profile::R);
    assert_eq!(Arch::Armv8R.profile(), Profile::R);
    assert_eq!(Arch::Armv7A.profile(), Profile::A);
    assert_eq!(Arch::Armv8A.profile(), Profile::A);
    assert_eq!(Profile::get("armv8r-none-eabihf"), Some(Profile::R));
    assert_eq!(Profile::get("riscv64gc-unknown-none"), None);
}

#[test]
fn isa_follows_architecture() {
    assert_eq!(Isa::get("armv7r-none-eabi"), Some(Isa::A32));
    assert_eq!(Isa::get("thumbv7m-none-eabi"), Some(Isa::T32));
    assert_eq!(Isa::get("aarch64-unknown-linux-gnu"), Some(Isa::A64));
    assert_eq!(Isa::get("armv4t-none-eabi"), Some(Isa::A32));
    assert_eq!(Isa::get("wasm32-unknown-unknown"), None);
}

#[test]
fn names_match_configuration_values() {
    assert_eq!(Isa::A64.name(), "a64");
    assert_eq!(Isa::A32.name(), "a32");
    assert_eq!(Isa::T32.name(), "t32");
    assert_eq!(Arch::Armv8MBase.name(), "v8-m.base");
    assert_eq!(Arch::Armv7R.name(), "v7-r");
    assert_eq!(Profile::Legacy.name(), "legacy");
    assert_eq!(Profile::R.name(), "r");
}

#[test]
fn values_list_every_name() {
    assert_eq!(Isa::values(), r#""a64", "a32", "t32""#);
    assert_eq!(
        Arch::values(),
        r#""v4t", "v5te", "v6-m", "v7-m", "v7e-m", "v8-m.base", "v8-m.main", "v7-r", "v8-r", "v7-a", "v8-a""#
    );
    assert_eq!(Profile::values(), r#""a", "r", "m", "legacy""#);
}

#[test]
fn target_info_fields_agree() {
    let info = TargetInfo::from_target("armv8r-none-eabihf");
    assert_eq!(info.arch(), Some(Arch::Armv8R));
    assert_eq!(info.isa(), Some(Isa::A32));
    assert_eq!(info.profile(), Some(Profile::R));

    let unknown = TargetInfo::from_target("powerpc-unknown-linux-gnu");
    assert_eq!(unknown.arch(), None);
    assert_eq!(unknown.isa(), None);
    assert_eq!(unknown.profile(), None);
}

#[test]
fn default_target_info_is_empty() {
    let d = TargetInfo::default();
    assert_eq!(d.isa(), None);
    assert_eq!(d.arch(), None);
    assert_eq!(d.profile(), None);
}
