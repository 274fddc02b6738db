use vstd::prelude::*;

verus! {

/// The family of client that a profile belongs to.
#[derive(Clone, Copy, Debug, PartialEq, Eq, Structural)]
pub enum ClientProfile {
    Chrome,
    Edge,
    Safari,
    OkHttp,
}

/// A named client build whose network fingerprint is reproduced.
#[derive(Clone, Copy, Debug, PartialEq, Eq, Structural)]
pub enum Impersonate {
    Chrome100,
    Chrome110,
    Chrome116,
    Chrome117,
    Chrome120,
    Chrome123,
    Chrome124,
    Chrome126,
    Chrome127,
    Cronet,
    Edge101,
    Edge122,
    Edge127,
    Safari15_5,
    Safari17,
    OkHttp4_9,
    OkHttp5,
}

/// The family of each profile; Cronet is Chrome's network stack.
pub open spec fn family_of(p: Impersonate) -> ClientProfile {
    match p {
        Impersonate::Chrome100 | Impersonate::Chrome110 | Impersonate::Chrome116
        | Impersonate::Chrome117 | Impersonate::Chrome120 | Impersonate::Chrome123
        | Impersonate::Chrome124 | Impersonate::Chrome126 | Impersonate::Chrome127
        | Impersonate::Cronet => ClientProfile::Chrome,
        Impersonate::Edge101 | Impersonate::Edge122 | Impersonate::Edge127 => ClientProfile::Edge,
        Impersonate::Safari15_5 | Impersonate::Safari17 => ClientProfile::Safari,
        Impersonate::OkHttp4_9 | Impersonate::OkHttp5 => ClientProfile::OkHttp,
    }
}

/// The profiles whose real clients resume sessions with a pre-shared key.
pub open spec fn psk_allow_listed(p: Impersonate) -> bool {
    match p {
        Impersonate::Chrome116 | Impersonate::Chrome117 | Impersonate::Chrome120
        | Impersonate::Chrome123 | Impersonate::Chrome124 | Impersonate::Chrome126
        | Impersonate::Chrome127 | Impersonate::Cronet | Impersonate::Edge122
        | Impersonate::Edge127 => true,
        _ => false,
    }
}

/// Whether the family receives the per-connection extensions
/// (permutation, ECH GREASE, application settings).
pub open spec fn family_takes_connection_extensions(f: ClientProfile) -> bool {
    f == ClientProfile::Chrome || f == ClientProfile::Edge
}

impl Impersonate {
    /// The client family of this profile.
    pub fn profile(&self) -> (r: ClientProfile)
        ensures
            r == family_of(*self),
    {
        match self {
            Impersonate::Chrome100 | Impersonate::Chrome110 | Impersonate::Chrome116
            | Impersonate::Chrome117 | Impersonate::Chrome120 | Impersonate::Chrome123
            | Impersonate::Chrome124 | Impersonate::Chrome126 | Impersonate::Chrome127
            | Impersonate::Cronet => ClientProfile::Chrome,
            Impersonate::Edge101 | Impersonate::Edge122 | Impersonate::Edge127 => {
                ClientProfile::Edge
            },
            Impersonate::Safari15_5 | Impersonate::Safari17 => ClientProfile::Safari,
            Impersonate::OkHttp4_9 | Impersonate::OkHttp5 => ClientProfile::OkHttp,
        }
    }

    /// Whether this profile is on the allow-list of profiles that resume
    /// sessions with a pre-shared key.
    pub fn requires_pre_shared_key(&self) -> (r: bool)
        ensures
            r == psk_allow_listed(*self),
    {
        match self {
            Impersonate::Chrome116 | Impersonate::Chrome117 | Impersonate::Chrome120
            | Impersonate::Chrome123 | Impersonate::Chrome124 | Impersonate::Chrome126
            | Impersonate::Chrome127 | Impersonate::Cronet | Impersonate::Edge122
            | Impersonate::Edge127 => true,
            _ => false,
        }
    }
}

impl ClientProfile {
    /// Whether connections of this family get extension permutation, ECH GREASE
    /// and the application-settings extension configured.
    pub fn takes_connection_extensions(&self) -> (r: bool)
        ensures
            r == family_takes_connection_extensions(*self),
    {
        match self {
            ClientProfile::Chrome | ClientProfile::Edge => true,
            _ => false,
        }
    }
}

} // verus!
