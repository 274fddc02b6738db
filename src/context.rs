use vstd::prelude::*;

use crate::alpn::{alpn_protocols, alpn_protos, alpn_wire};
use crate::profile::{family_of, family_takes_connection_extensions, psk_allow_listed, Impersonate};

verus! {

/// How many sessions the shared resumption cache holds.
pub const DEFAULT_SESSION_CACHE_CAPACITY: usize = 8;

/// Which profile and which optional features a logical client uses.
#[derive(Clone, Copy, Debug, PartialEq, Eq, Structural)]
pub struct ImpersonateContext {
    pub impersonate: Impersonate,
    pub enable_ech_grease: bool,
    pub permute_extensions: bool,
    pub certs_verification: bool,
    pub pre_shared_key: bool,
    pub h2: bool,
}

/// Settings applied to each connection's own handshake configuration, once the
/// TLS engine has created it.
#[derive(Clone, Copy, Debug, PartialEq, Eq, Structural)]
pub struct ConnectionSettings {
    pub permute_extensions: bool,
    pub enable_ech_grease: bool,
    pub add_application_settings: bool,
}

/// Everything a secure connector is built from, decided from a context.
#[derive(Debug)]
pub struct ConnectorPlan {
    /// The ALPN list offered, in wire format.
    pub alpn_protos: Vec<u8>,
    /// Whether the server's certificate is verified.
    pub certs_verification: bool,
    /// Whether the shared session cache is attached, with resumption enabled.
    pub session_resumption: bool,
    /// The capacity the session cache is used with.
    pub session_cache_capacity: usize,
    /// What the per-connection callback applies; `None` applies nothing.
    pub connection_settings: Option<ConnectionSettings>,
}

/// The session cache is used when the profile is allow-listed or the context asks for it.
pub open spec fn uses_session_cache(ctx: ImpersonateContext) -> bool {
    psk_allow_listed(ctx.impersonate) || ctx.pre_shared_key
}

/// What the per-connection callback applies for a context: the three flags for
/// Chrome- and Edge-family profiles, nothing for the others.
pub open spec fn connection_settings_of(ctx: ImpersonateContext) -> Option<ConnectionSettings> {
    if family_takes_connection_extensions(family_of(ctx.impersonate)) {
        Some(
            ConnectionSettings {
                permute_extensions: ctx.permute_extensions,
                enable_ech_grease: ctx.enable_ech_grease,
                add_application_settings: ctx.h2,
            },
        )
    } else {
        None
    }
}

impl ImpersonateContext {
    /// Whether connectors for this context attach the shared session cache.
    pub fn uses_session_cache(&self) -> (r: bool)
        ensures
            r == uses_session_cache(*self),
    {
        self.impersonate.requires_pre_shared_key() || self.pre_shared_key
    }
}

/// The settings that the per-connection callback applies for a context.
pub fn configure_ssl_context(ctx: &ImpersonateContext) -> (r: Option<ConnectionSettings>)
    ensures
        r == connection_settings_of(*ctx),
{
    if ctx.impersonate.profile().takes_connection_extensions() {
        Some(
            ConnectionSettings {
                permute_extensions: ctx.permute_extensions,
                enable_ech_grease: ctx.enable_ech_grease,
                add_application_settings: ctx.h2,
            },
        )
    } else {
        None
    }
}

/// Decides how the secure connector for a context is built.
pub fn plan_connector(ctx: &ImpersonateContext) -> (r: ConnectorPlan)
    ensures
        r.alpn_protos@ == alpn_wire(alpn_protocols(ctx.h2)),
        r.certs_verification == ctx.certs_verification,
        r.session_resumption == uses_session_cache(*ctx),
        r.session_cache_capacity == DEFAULT_SESSION_CACHE_CAPACITY,
        r.connection_settings == connection_settings_of(*ctx),
{
    ConnectorPlan {
        alpn_protos: alpn_protos(ctx.h2),
        certs_verification: ctx.certs_verification,
        session_resumption: ctx.uses_session_cache(),
        session_cache_capacity: DEFAULT_SESSION_CACHE_CAPACITY,
        connection_settings: configure_ssl_context(ctx),
    }
}

/// Every context's connector plan can be built: the ALPN lists offered hold
/// only names that the wire format accepts, so planning never fails.
pub proof fn lemma_alpn_lists_encodable(h2: bool)
    ensures
        forall|i: int|
            0 <= i < alpn_protocols(h2).len() ==> crate::alpn::valid_protocol_name(
                #[trigger] alpn_protocols(h2)[i],
            ),
{
}

/// A profile off the pre-shared-key allow-list, in a context that does not ask
/// for a pre-shared key, never uses the session cache.
pub proof fn lemma_no_cache_without_psk(ctx: ImpersonateContext)
    requires
        !psk_allow_listed(ctx.impersonate),
        !ctx.pre_shared_key,
    ensures
        !uses_session_cache(ctx),
{
}

/// Chrome- and Edge-family profiles get exactly the context's permutation,
/// GREASE and application-settings flags on each connection; other families
/// get none of these calls, whatever the flags.
pub proof fn lemma_family_gating(ctx: ImpersonateContext)
    ensures
        family_takes_connection_extensions(family_of(ctx.impersonate)) ==> connection_settings_of(
            ctx,
        ) == Some(
            ConnectionSettings {
                permute_extensions: ctx.permute_extensions,
                enable_ech_grease: ctx.enable_ech_grease,
                add_application_settings: ctx.h2,
            },
        ),
        !family_takes_connection_extensions(family_of(ctx.impersonate))
            ==> connection_settings_of(ctx) is None,
{
}

} // verus!
