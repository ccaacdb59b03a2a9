//! Behaviour of capability-name resolution.

use ambient::Capability;
use ambient::cap::all;
use ambient::resolve;

#[test]
fn resolves_bare_canonical_names() {
    assert_eq!(resolve("NET_BIND_SERVICE").unwrap(), Capability::NetBindService);
    assert_eq!(resolve("CHOWN").unwrap(), Capability::Chown);
    assert_eq!(resolve("SYS_ADMIN").unwrap(), Capability::SysAdmin);
    assert_eq!(resolve("BPF").unwrap(), Capability::Bpf);
}

#[test]
fn resolves_prefixed_canonical_names() {
    assert_eq!(resolve("CAP_NET_BIND_SERVICE").unwrap(), Capability::NetBindService);
    assert_eq!(resolve("CAP_CHOWN").unwrap(), Capability::Chown);
    assert_eq!(resolve("CAP_CHECKPOINT_RESTORE").unwrap(), Capability::CheckpointRestore);
}

#[test]
fn resolution_is_case_insensitive() {
    assert_eq!(resolve("net_bind_service").unwrap(), Capability::NetBindService);
    assert_eq!(resolve("cap_net_bind_service").unwrap(), Capability::NetBindService);
    assert_eq!(resolve("Net_Bind_Service").unwrap(), Capability::NetBindService);
    assert_eq!(resolve("sys_admin").unwrap(), Capability::SysAdmin);
    assert_eq!(resolve("cAp_ChOwN").unwrap(), Capability::Chown);
}

#[test]
fn both_forms_of_every_name_resolve_to_the_same_identifier() {
    for c in all() {
        let bare = c.base_name_str();
        let prefixed = c.full_name();
        let lower = c.lower_name_str();
        assert_eq!(resolve(bare).unwrap(), c);
        assert_eq!(resolve(&prefixed).unwrap(), c);
        assert_eq!(resolve(lower).unwrap(), c);
    }
}

#[test]
fn unknown_names_fail_and_carry_the_input_unchanged() {
    let e = resolve("bogus").unwrap_err();
    assert_eq!(e.input, "bogus");
    let e = resolve("BoGuS").unwrap_err();
    assert_eq!(e.input, "BoGuS");
    let e = resolve("CAP_FOO").unwrap_err();
    assert_eq!(e.input, "CAP_FOO");
    assert!(resolve("").is_err());
    assert!(resolve("CAP_").is_err());
    assert!(resolve("CAP").is_err());
    assert!(resolve("CHOWN ").is_err());
    assert!(resolve("ch\u{f6}wn").is_err());
}

#[test]
fn prefix_is_dropped_only_once() {
    assert!(resolve("CAP_CAP_CHOWN").is_err());
}

#[test]
fn resolve_error_message_names_the_input() {
    let e = resolve("bogus").unwrap_err();
    assert_eq!(e.message(), "unrecognised capability: bogus");
}

#[test]
fn canonical_names_match_the_subsystem() {
    assert_eq!(Capability::NetBindService.full_name(), "CAP_NET_BIND_SERVICE");
    assert_eq!(Capability::SysAdmin.base_name_str(), "SYS_ADMIN");
    assert_eq!(Capability::SysAdmin.lower_name_str(), "sys_admin");
    assert_eq!(Capability::Mknod.full_name(), "CAP_MKNOD");
}

#[test]
fn the_domain_is_fully_enumerated() {
    let caps = all();
    assert_eq!(caps.len(), 41);
    for (i, c) in caps.iter().enumerate() {
        for d in caps.iter().skip(i + 1) {
            assert_ne!(c, d);
        }
    }
}
