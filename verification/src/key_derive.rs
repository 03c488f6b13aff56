//! Deterministic hierarchical key derivation with per-scheme path-shape
//! validation.
//!
//! A derivation path has exactly five components. For Ed25519 the
//! purpose is 44', the coin type 784', and account, change and address
//! must all be hardened; for Secp256k1 the purpose is 54', the coin type
//! 784', account must be hardened, and change and address must not be.
//! With no explicit path the scheme's canonical default path is used.

use vstd::prelude::*;

use crate::address::spec_address_of;
use crate::address::NanoAddress;
use crate::backend;
use crate::error::NanoError;
use crate::keypair::spec_kp_scheme;
use crate::keypair::spec_kp_secret;
use crate::keypair::spec_kp_wf;
use crate::keypair::KeyPair;
use crate::signature_scheme::SignatureScheme;

verus! {

/// The coin type component of every derivation path.
pub const DERIVATION_PATH_COIN_TYPE: u32 = 784;

/// The purpose component of Ed25519 derivation paths.
pub const DERVIATION_PATH_PURPOSE_ED25519: u32 = 44;

/// The purpose component of Secp256k1 derivation paths.
pub const DERVIATION_PATH_PURPOSE_SECP256K1: u32 = 54;

/// One component of a derivation path: a child index below 2^31 and a
/// hardened marker.
#[derive(Copy, Clone, Debug, PartialEq, Eq, Structural)]
pub struct PathComponent {
    pub index: u32,
    pub hardened: bool,
}

/// A well-formed component keeps its index below the hardened bit.
pub open spec fn spec_component_wf(c: PathComponent) -> bool {
    c.index < 0x8000_0000u32
}

/// The raw child number of a component: the index with the hardened bit
/// added when the component is hardened.
pub open spec fn spec_component_raw(c: PathComponent) -> u32 {
    if c.hardened {
        (c.index + 0x8000_0000u32) as u32
    } else {
        c.index
    }
}

impl PathComponent {
    /// Builds a component; an index with the hardened bit set is
    /// rejected.
    pub fn new(index: u32, hardened: bool) -> (r: Result<PathComponent, NanoError>)
        ensures
            r is Ok <==> index < 0x8000_0000u32,
            (r matches Ok(c) ==> c == (PathComponent { index, hardened })),
            (r matches Err(e) ==> e == NanoError::SignatureKeyGenError),
    {
        if index < 0x8000_0000u32 {
            Ok(PathComponent { index, hardened })
        } else {
            Err(NanoError::SignatureKeyGenError)
        }
    }

    /// The raw child number of this component.
    pub fn raw(&self) -> (r: u32)
        requires
            spec_component_wf(*self),
        ensures
            r == spec_component_raw(*self),
    {
        if self.hardened {
            self.index + 0x8000_0000u32
        } else {
            self.index
        }
    }
}

/// An ordered sequence of path components.
#[derive(Debug, PartialEq, Eq)]
pub struct DerivationPath {
    pub components: Vec<PathComponent>,
}

/// A well-formed path: every component is well formed.
pub open spec fn spec_path_wf(p: Seq<PathComponent>) -> bool {
    forall|i: int| 0 <= i < p.len() ==> spec_component_wf(#[trigger] p[i])
}

/// The raw child numbers of a path.
pub open spec fn spec_path_raw(p: Seq<PathComponent>) -> Seq<u32> {
    p.map_values(|c: PathComponent| spec_component_raw(c))
}

/// The canonical default path of a scheme: `m/44'/784'/0'/0'/0'` for
/// Ed25519 and `m/54'/784'/0'/0/0` for Secp256k1.
pub open spec fn spec_default_path(scheme: SignatureScheme) -> Seq<PathComponent> {
    match scheme {
        SignatureScheme::ED25519 => seq![
            PathComponent { index: 44u32, hardened: true },
            PathComponent { index: 784u32, hardened: true },
            PathComponent { index: 0u32, hardened: true },
            PathComponent { index: 0u32, hardened: true },
            PathComponent { index: 0u32, hardened: true },
        ],
        SignatureScheme::Secp256k1 => seq![
            PathComponent { index: 54u32, hardened: true },
            PathComponent { index: 784u32, hardened: true },
            PathComponent { index: 0u32, hardened: true },
            PathComponent { index: 0u32, hardened: false },
            PathComponent { index: 0u32, hardened: false },
        ],
    }
}

/// The required shape of a supplied path: exactly five components,
/// the scheme's purpose and coin type, and the scheme's hardening
/// pattern on account, change and address.
pub open spec fn spec_path_valid(scheme: SignatureScheme, p: Seq<PathComponent>) -> bool {
    p.len() == 5 && p[0] == (PathComponent {
        index: match scheme {
            SignatureScheme::ED25519 => 44u32,
            SignatureScheme::Secp256k1 => 54u32,
        },
        hardened: true,
    }) && p[1] == (PathComponent { index: 784u32, hardened: true }) && p[2].hardened && match scheme {
        SignatureScheme::ED25519 => p[3].hardened && p[4].hardened,
        SignatureScheme::Secp256k1 => !p[3].hardened && !p[4].hardened,
    }
}

/// The path a derivation request resolves to: the supplied path, or the
/// scheme's default when none is given.
pub open spec fn spec_effective_path(
    scheme: SignatureScheme,
    path: Option<Seq<PathComponent>>,
) -> Seq<PathComponent> {
    match path {
        Some(p) => p,
        None => spec_default_path(scheme),
    }
}

/// Validates a derivation request's path shape for a scheme; a missing
/// path resolves to the scheme's canonical default, which is always
/// valid.
pub fn validate_path(key_scheme: &SignatureScheme, path: Option<DerivationPath>) -> (r: Result<
    DerivationPath,
    NanoError,
>)
    ensures
        r is Ok <==> spec_path_valid(
            *key_scheme,
            spec_effective_path(
                *key_scheme,
                match path {
                    Some(p) => Some(p.components@),
                    None => None,
                },
            ),
        ),
        (r matches Ok(out) ==> out.components@ == spec_effective_path(
            *key_scheme,
            match path {
                Some(p) => Some(p.components@),
                None => None,
            },
        )),
        (r matches Err(e) ==> e == NanoError::SignatureKeyGenError),
{
    match path {
        Some(p) => {
            if p.components.len() != 5 {
                return Err(NanoError::SignatureKeyGenError);
            }
            let purpose = match key_scheme {
                SignatureScheme::ED25519 => DERVIATION_PATH_PURPOSE_ED25519,
                SignatureScheme::Secp256k1 => DERVIATION_PATH_PURPOSE_SECP256K1,
            };
            let c0 = p.components[0];
            let c1 = p.components[1];
            let c2 = p.components[2];
            let c3 = p.components[3];
            let c4 = p.components[4];
            let shape_ok = c0.index == purpose && c0.hardened && c1.index
                == DERIVATION_PATH_COIN_TYPE && c1.hardened && c2.hardened && (match key_scheme {
                SignatureScheme::ED25519 => c3.hardened && c4.hardened,
                SignatureScheme::Secp256k1 => !c3.hardened && !c4.hardened,
            });
            if shape_ok {
                Ok(p)
            } else {
                Err(NanoError::SignatureKeyGenError)
            }
        },
        None => {
            let mut components: Vec<PathComponent> = Vec::new();
            let purpose = match key_scheme {
                SignatureScheme::ED25519 => DERVIATION_PATH_PURPOSE_ED25519,
                SignatureScheme::Secp256k1 => DERVIATION_PATH_PURPOSE_SECP256K1,
            };
            let tail_hardened = match key_scheme {
                SignatureScheme::ED25519 => true,
                SignatureScheme::Secp256k1 => false,
            };
            components.push(PathComponent { index: purpose, hardened: true });
            components.push(PathComponent { index: DERIVATION_PATH_COIN_TYPE, hardened: true });
            components.push(PathComponent { index: 0, hardened: true });
            components.push(PathComponent { index: 0, hardened: tail_hardened });
            components.push(PathComponent { index: 0, hardened: tail_hardened });
            proof {
                assert(components@ =~= spec_default_path(*key_scheme));
            }
            Ok(DerivationPath { components })
        },
    }
}


/// What a successful derivation returns for a seed, an effective path
/// and a scheme: a well-formed key pair of that scheme whose private
/// scalar is the scheme's derivation function of seed and raw path, and
/// the address of its public key.
pub open spec fn spec_derived_ok(
    seed: Seq<u8>,
    comps: Seq<PathComponent>,
    scheme: SignatureScheme,
    addr: NanoAddress,
    kp: KeyPair,
) -> bool {
    &&& spec_kp_wf(kp)
    &&& spec_kp_scheme(kp) == scheme
    &&& spec_kp_secret(kp) == (match scheme {
        SignatureScheme::ED25519 => backend::slip10_key_of(seed, spec_path_raw(comps)),
        SignatureScheme::Secp256k1 => backend::bip32_key_of(seed, spec_path_raw(comps)),
    })
    &&& addr@ == spec_address_of(
        crate::signature_scheme::spec_flag(scheme),
        crate::keypair::spec_kp_public(kp),
    )
}

/// Derives a key pair and its address from a seed, an optional path and
/// a scheme. The derivation is pure and deterministic: identical inputs
/// always yield identical results. Ed25519 derives through SLIP-0010,
/// Secp256k1 through BIP32 extended keys; both then hash the derived
/// public key into an address.
pub fn derive_key_pair_from_path(
    seed: &[u8],
    derivation_path: Option<DerivationPath>,
    key_scheme: &SignatureScheme,
) -> (r: Result<(NanoAddress, KeyPair), NanoError>)
    requires
        (derivation_path matches Some(p) ==> spec_path_wf(p.components@)),
    ensures
        ({
            let comps = spec_effective_path(
                *key_scheme,
                match derivation_path {
                    Some(p) => Some(p.components@),
                    None => None,
                },
            );
            &&& (!spec_path_valid(*key_scheme, comps) ==> r == Err::<
                (NanoAddress, KeyPair),
                NanoError,
            >(NanoError::SignatureKeyGenError))
            &&& (spec_path_valid(*key_scheme, comps) ==> match *key_scheme {
                SignatureScheme::ED25519 => r is Ok,
                SignatureScheme::Secp256k1 => r is Ok <==> backend::bip32_ok(
                    seed@,
                    spec_path_raw(comps),
                ),
            })
            &&& (r matches Ok((addr, kp)) ==> spec_derived_ok(seed@, comps, *key_scheme, addr, kp))
            &&& (r matches Err(e) ==> e == NanoError::SignatureKeyGenError)
        }),
{
    let ghost opt_comps = match &derivation_path {
        Some(p) => Some(p.components@),
        None => None,
    };
    let ghost comps = spec_effective_path(*key_scheme, opt_comps);
    proof {
        if opt_comps is None {
            assert forall|i: int| 0 <= i < comps.len() implies spec_component_wf(
                #[trigger] comps[i],
            ) by {
                assert(0 <= i < 5);
            }
        }
        assert(spec_path_wf(comps));
    }
    let path = match validate_path(key_scheme, derivation_path) {
        Ok(path) => path,
        Err(e) => {
            return Err(e);
        },
    };
    let mut indexes: Vec<u32> = Vec::new();
    let mut i: usize = 0;
    while i < path.components.len()
        invariant
            0 <= i <= path.components@.len(),
            spec_path_wf(path.components@),
            indexes@ == spec_path_raw(path.components@.take(i as int)),
        decreases path.components@.len() - i,
    {
        indexes.push(path.components[i].raw());
        proof {
            assert(spec_path_raw(path.components@.take(i + 1)) =~= spec_path_raw(
                path.components@.take(i as int),
            ).push(spec_component_raw(path.components@[i as int])));
        }
        i += 1;
    }
    proof {
        assert(path.components@.take(path.components@.len() as int) =~= path.components@);
    }
    match key_scheme {
        SignatureScheme::ED25519 => {
            let derived = backend::slip10_derive(seed, indexes.as_slice());
            let kp = KeyPair::ed25519_from_secret(derived.as_slice());
            let pk = kp.public();
            let addr = NanoAddress::from_public_key(&pk);
            Ok((addr, kp))
        },
        SignatureScheme::Secp256k1 => {
            let derived = match backend::bip32_derive(seed, indexes.as_slice()) {
                Some(derived) => derived,
                None => {
                    return Err(NanoError::SignatureKeyGenError);
                },
            };
            let kp = match KeyPair::secp256k1_from_secret(derived.as_slice()) {
                Ok(kp) => kp,
                Err(_) => {
                    return Err(NanoError::SignatureKeyGenError);
                },
            };
            let pk = kp.public();
            let addr = NanoAddress::from_public_key(&pk);
            Ok((addr, kp))
        },
    }
}


/// Determinism of derivation: two successful derivations from the same
/// seed, effective path and scheme yield the same address and the same
/// key pair, bit for bit.
pub proof fn lemma_derivation_deterministic(
    seed: Seq<u8>,
    comps: Seq<PathComponent>,
    scheme: SignatureScheme,
    a1: NanoAddress,
    k1: KeyPair,
    a2: NanoAddress,
    k2: KeyPair,
)
    requires
        spec_derived_ok(seed, comps, scheme, a1, k1),
        spec_derived_ok(seed, comps, scheme, a2, k2),
    ensures
        k2 == k1,
        a2 == a1,
{
    match (k1, k2) {
        (
            KeyPair::Ed25519 { secret: s1, public: p1 },
            KeyPair::Ed25519 { secret: s2, public: p2 },
        ) => {
            assert(s1 =~= s2);
            assert(p1 =~= p2);
        },
        (
            KeyPair::Secp256k1 { secret: s1, public: p1 },
            KeyPair::Secp256k1 { secret: s2, public: p2 },
        ) => {
            assert(s1 =~= s2);
            assert(p1 =~= p2);
        },
        _ => {},
    }
    crate::address::lemma_address_determined(a1, a2);
}


/// The canonical default path of each scheme passes that scheme's own
/// shape validation, so a derivation request without an explicit path
/// always has a valid path to work with.
pub proof fn lemma_default_path_valid(scheme: SignatureScheme)
    ensures
        spec_path_valid(scheme, spec_default_path(scheme)),
{
}

} // verus!
