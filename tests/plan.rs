use impersonate::context::{
    configure_ssl_context, plan_connector, ConnectionSettings, ImpersonateContext,
    DEFAULT_SESSION_CACHE_CAPACITY,
};
use impersonate::profile::{ClientProfile, Impersonate};

fn ctx(impersonate: Impersonate) -> ImpersonateContext {
    ImpersonateContext {
        impersonate,
        enable_ech_grease: false,
        permute_extensions: false,
        certs_verification: true,
        pre_shared_key: false,
        h2: false,
    }
}

const H2_AND_HTTP11: &[u8] = b"\x02h2\x08http/1.1";
const HTTP11: &[u8] = b"\x08http/1.1";

#[test]
fn chrome124_with_http2_resumes_and_offers_h2() {
    let mut c = ctx(Impersonate::Chrome124);
    c.h2 = true;
    let plan = plan_connector(&c);
    assert!(plan.session_resumption);
    assert_eq!(plan.session_cache_capacity, 8);
    assert_eq!(plan.session_cache_capacity, DEFAULT_SESSION_CACHE_CAPACITY);
    assert_eq!(plan.alpn_protos, H2_AND_HTTP11.to_vec());
    assert!(plan.certs_verification);
    assert_eq!(
        plan.connection_settings,
        Some(ConnectionSettings {
            permute_extensions: false,
            enable_ech_grease: false,
            add_application_settings: true,
        })
    );
}

#[test]
fn cronet_defaults_resume_without_flag() {
    let c = ctx(Impersonate::Cronet);
    let plan = plan_connector(&c);
    assert!(plan.session_resumption);
    assert_eq!(plan.alpn_protos, HTTP11.to_vec());
    let mut c2 = c;
    c2.h2 = true;
    assert_eq!(plan_connector(&c2).alpn_protos, H2_AND_HTTP11.to_vec());
}

#[test]
fn disabled_verification_is_carried_into_the_plan() {
    let mut c = ctx(Impersonate::Chrome124);
    c.certs_verification = false;
    assert!(!plan_connector(&c).certs_verification);
}

#[test]
fn no_session_cache_off_allow_list() {
    for p in [
        Impersonate::Chrome100,
        Impersonate::Chrome110,
        Impersonate::Edge101,
        Impersonate::Safari17,
        Impersonate::OkHttp5,
    ] {
        let c = ctx(p);
        assert!(!c.uses_session_cache());
        assert!(!plan_connector(&c).session_resumption);
    }
}

#[test]
fn pre_shared_key_flag_enables_cache() {
    let mut c = ctx(Impersonate::Safari17);
    c.pre_shared_key = true;
    assert!(c.uses_session_cache());
    assert!(plan_connector(&c).session_resumption);
}

#[test]
fn allow_list_members() {
    for p in [
        Impersonate::Chrome116,
        Impersonate::Chrome117,
        Impersonate::Chrome120,
        Impersonate::Chrome123,
        Impersonate::Chrome124,
        Impersonate::Chrome126,
        Impersonate::Chrome127,
        Impersonate::Cronet,
        Impersonate::Edge122,
        Impersonate::Edge127,
    ] {
        assert!(p.requires_pre_shared_key());
    }
    assert!(!Impersonate::OkHttp4_9.requires_pre_shared_key());
    assert!(!Impersonate::Safari15_5.requires_pre_shared_key());
}

#[test]
fn chrome_permutation_is_requested() {
    let mut c = ctx(Impersonate::Chrome120);
    c.permute_extensions = true;
    c.enable_ech_grease = true;
    assert_eq!(
        configure_ssl_context(&c),
        Some(ConnectionSettings {
            permute_extensions: true,
            enable_ech_grease: true,
            add_application_settings: false,
        })
    );
}

#[test]
fn okhttp_gets_no_connection_extensions() {
    let mut c = ctx(Impersonate::OkHttp4_9);
    c.permute_extensions = true;
    c.enable_ech_grease = true;
    c.h2 = true;
    assert_eq!(configure_ssl_context(&c), None);
    let mut s = ctx(Impersonate::Safari15_5);
    s.permute_extensions = true;
    assert_eq!(configure_ssl_context(&s), None);
}

#[test]
fn edge_gets_connection_extensions() {
    let mut c = ctx(Impersonate::Edge127);
    c.h2 = true;
    assert_eq!(
        configure_ssl_context(&c),
        Some(ConnectionSettings {
            permute_extensions: false,
            enable_ech_grease: false,
            add_application_settings: true,
        })
    );
}

#[test]
fn families() {
    assert_eq!(Impersonate::Cronet.profile(), ClientProfile::Chrome);
    assert_eq!(Impersonate::Edge122.profile(), ClientProfile::Edge);
    assert_eq!(Impersonate::Safari17.profile(), ClientProfile::Safari);
    assert_eq!(Impersonate::OkHttp5.profile(), ClientProfile::OkHttp);
    assert!(ClientProfile::Chrome.takes_connection_extensions());
    assert!(ClientProfile::Edge.takes_connection_extensions());
    assert!(!ClientProfile::Safari.takes_connection_extensions());
    assert!(!ClientProfile::OkHttp.takes_connection_extensions());
}
