//! Signer identities and key derivation paths.
//!
//! Two independently derived key identities exist per job: the caller's
//! wallet signer and the function's own signer. The paths built here pin
//! down which key a signature request reaches; performing the threshold
//! signature itself is the signing collaborator's work and happens outside
//! this crate.

use vstd::prelude::*;
use vstd::string::StrSliceExecFns;
use vstd::string::StringExecFns;
use vstd::utf8::encode_utf8;

use crate::buffer::bytes_eq;
use crate::chain::Address;
use crate::repository::{keccak256, keccak256_of};
use crate::runtime::simulated_signature;

verus! {

/// The UTF-8 bytes of the snowflake namespace prefix that starts every
/// derivation path scope.
pub open spec fn scope_prefix() -> Seq<u8> {
    seq![0xe2u8, 0x9du8, 0x84u8, 0xefu8, 0xb8u8, 0x8fu8]
}

/// The scope tag for keys controlled by a deployed function: the
/// namespace prefix followed by "/function".
pub open spec fn function_scope() -> Seq<u8> {
    scope_prefix() + seq![47u8, 102u8, 117u8, 110u8, 99u8, 116u8, 105u8, 111u8, 110u8]
}

/// The scope tag for keys controlled by a caller: the namespace prefix
/// followed by "/caller".
pub open spec fn caller_scope() -> Seq<u8> {
    scope_prefix() + seq![47u8, 99u8, 97u8, 108u8, 108u8, 101u8, 114u8]
}

/// The scope tag for caller wallet keys: the namespace prefix followed by
/// "/wallet".
pub open spec fn wallet_scope() -> Seq<u8> {
    scope_prefix() + seq![47u8, 119u8, 97u8, 108u8, 108u8, 101u8, 116u8]
}

fn push_scope_prefix(bytes: &mut Vec<u8>)
    ensures
        final(bytes)@ == old(bytes)@ + scope_prefix(),
{
    bytes.push(0xe2);
    bytes.push(0x9d);
    bytes.push(0x84);
    bytes.push(0xef);
    bytes.push(0xb8);
    bytes.push(0x8f);
    proof {
        assert(final(bytes)@ =~= old(bytes)@ + scope_prefix());
    }
}

fn function_scope_bytes() -> (r: Vec<u8>)
    ensures
        r@ == function_scope(),
{
    let mut bytes: Vec<u8> = Vec::new();
    push_scope_prefix(&mut bytes);
    bytes.push(47);
    bytes.push(102);
    bytes.push(117);
    bytes.push(110);
    bytes.push(99);
    bytes.push(116);
    bytes.push(105);
    bytes.push(111);
    bytes.push(110);
    proof {
        assert(bytes@ =~= function_scope());
    }
    bytes
}

fn caller_scope_bytes() -> (r: Vec<u8>)
    ensures
        r@ == caller_scope(),
{
    let mut bytes: Vec<u8> = Vec::new();
    push_scope_prefix(&mut bytes);
    bytes.push(47);
    bytes.push(99);
    bytes.push(97);
    bytes.push(108);
    bytes.push(108);
    bytes.push(101);
    bytes.push(114);
    proof {
        assert(bytes@ =~= caller_scope());
    }
    bytes
}

fn wallet_scope_bytes() -> (r: Vec<u8>)
    ensures
        r@ == wallet_scope(),
{
    let mut bytes: Vec<u8> = Vec::new();
    push_scope_prefix(&mut bytes);
    bytes.push(47);
    bytes.push(119);
    bytes.push(97);
    bytes.push(108);
    bytes.push(108);
    bytes.push(101);
    bytes.push(116);
    proof {
        assert(bytes@ =~= wallet_scope());
    }
    bytes
}

/// The derivation path of a signer controlled by the function with the
/// given id: the function scope, the 32-byte function id, and an optional
/// further derivation.
pub fn derivation_path_for_function(function_id: Vec<u8>, derivation: Option<Vec<u8>>) -> (r: Vec<
    Vec<u8>,
>)
    requires
        function_id@.len() == 32,
    ensures
        r@.len() == (if derivation is Some { 3int } else { 2int }),
        r@[0]@ == function_scope(),
        r@[1]@ == function_id@,
        derivation matches Some(d) ==> r@[2]@ == d@,
{
    let mut path: Vec<Vec<u8>> = Vec::new();
    path.push(function_scope_bytes());
    path.push(function_id);
    if let Some(d) = derivation {
        path.push(d);
    }
    path
}

/// The derivation path of a signer controlled by the given caller: the
/// caller scope, the caller's address bytes, and an optional further
/// derivation.
pub fn derivation_path_for_caller(caller: &Address, derivation: Option<Vec<u8>>) -> (r: Vec<
    Vec<u8>,
>)
    ensures
        r@.len() == (if derivation is Some { 3int } else { 2int }),
        r@[0]@ == caller_scope(),
        r@[1]@ == caller.spec_bytes(),
        derivation matches Some(d) ==> r@[2]@ == d@,
{
    let mut path: Vec<Vec<u8>> = Vec::new();
    path.push(caller_scope_bytes());
    path.push(caller.bytes().clone());
    if let Some(d) = derivation {
        path.push(d);
    }
    path
}

/// The derivation path of the shared wallet signer of the given caller
/// address: the wallet scope followed by the address bytes. Before
/// signing anything with such a key, the caller must have authorized the
/// message on-chain.
pub fn derivation_path_for_wallet(address: &Address) -> (r: Vec<Vec<u8>>)
    ensures
        r@.len() == 2,
        r@[0]@ == wallet_scope(),
        r@[1]@ == address.spec_bytes(),
{
    let mut path: Vec<Vec<u8>> = Vec::new();
    path.push(wallet_scope_bytes());
    path.push(address.bytes().clone());
    path
}

/// The name of the threshold root key to use on a given network: the test
/// key on a local network, the production key on the main network, and
/// nothing anywhere else.
pub fn key_id(dfx_network: &str) -> (r: Option<String>)
    ensures
        encode_utf8(dfx_network@) == ("local")@.map_values(|c: char| c as u8) ==> (r matches Some(
            k,
        ) && k@ == ("dfx_test_key")@),
        encode_utf8(dfx_network@) == ("ic")@.map_values(|c: char| c as u8) ==> (r matches Some(k)
            && k@ == ("key_1")@),
        r is None <==> !(encode_utf8(dfx_network@) == ("local")@.map_values(|c: char| c as u8)
            || encode_utf8(dfx_network@) == ("ic")@.map_values(|c: char| c as u8)),
{
    let bytes = dfx_network.as_bytes_vec();
    let mut local: Vec<u8> = Vec::new();
    local.push(108);
    local.push(111);
    local.push(99);
    local.push(97);
    local.push(108);
    let mut ic: Vec<u8> = Vec::new();
    ic.push(105);
    ic.push(99);
    proof {
        reveal_strlit("local");
        reveal_strlit("ic");
        assert(vstd::utf8::is_ascii_chars(("local")@));
        assert(vstd::utf8::is_ascii_chars(("ic")@));
        vstd::utf8::is_ascii_chars_encode_utf8(("local")@);
        vstd::utf8::is_ascii_chars_encode_utf8(("ic")@);
        assert(local@ =~= ("local")@.map_values(|c: char| c as u8));
        assert(ic@ =~= ("ic")@.map_values(|c: char| c as u8));
    }
    if bytes_eq(&bytes, &local) {
        Some(String::from_str("dfx_test_key"))
    } else if bytes_eq(&bytes, &ic) {
        Some(String::from_str("key_1"))
    } else {
        None
    }
}

/// The Ethereum address belonging to an uncompressed SEC1 public key:
/// the last 20 bytes of the Keccak-256 hash of the 64 coordinate bytes.
/// Keys in any other encoding are refused; decompressing a compressed key
/// is the signing collaborator's work.
pub fn eth_address(public_key: &Vec<u8>) -> (r: Option<Address>)
    ensures
        r is Some <==> public_key@.len() == 65 && public_key@[0] == 0x04,
        r matches Some(a) ==> {
            &&& a.wf()
            &&& a.spec_bytes() == keccak256_of(public_key@.subrange(1, 65)).subrange(12, 32)
        },
{
    if public_key.len() != 65 {
        return None;
    }
    if public_key[0] != 0x04 {
        return None;
    }
    let mut coordinates: Vec<u8> = Vec::new();
    let mut i: usize = 1;
    while i < 65
        invariant
            public_key@.len() == 65,
            1 <= i <= 65,
            coordinates@.len() == i - 1,
            forall|j: int| 0 <= j < i - 1 ==> coordinates@[j] == public_key@[j + 1],
        decreases 65 - i,
    {
        coordinates.push(public_key[i]);
        i = i + 1;
    }
    proof {
        assert(coordinates@ =~= public_key@.subrange(1, 65));
    }
    let hash = keccak256(&coordinates);
    let mut address: Vec<u8> = Vec::new();
    let mut i: usize = 12;
    while i < 32
        invariant
            hash@.len() == 32,
            12 <= i <= 32,
            address@.len() == i - 12,
            forall|j: int| 0 <= j < i - 12 ==> address@[j] == hash@[j + 12],
        decreases 32 - i,
    {
        address.push(hash[i]);
        i = i + 1;
    }
    proof {
        assert(address@ =~= hash@.subrange(12, 32));
    }
    Some(Address::EvmAddress(address))
}

/// The subset of a signer's identity that identifies it: its derivation
/// path.
pub struct IcpSignerId {
    pub derivation_path: Vec<Vec<u8>>,
}

/// A signer whose key lives behind the platform's threshold-signature
/// service, addressed by a derivation path. The service calls themselves
/// are the signing collaborator's work.
pub struct ThresholdSigner {
    derivation_path: Vec<Vec<u8>>,
}

impl ThresholdSigner {
    /// The derivation path this signer signs under.
    pub closed spec fn path(&self) -> Seq<Vec<u8>> {
        self.derivation_path@
    }

    /// A signer for the given derivation path.
    pub fn new(derivation_path: Vec<Vec<u8>>) -> (r: ThresholdSigner)
        ensures
            r.path() == derivation_path@,
    {
        ThresholdSigner { derivation_path }
    }

    /// The derivation path, for the shell that performs the service
    /// calls.
    pub fn derivation_path(&self) -> (r: &Vec<Vec<u8>>)
        ensures
            r@ == self.path(),
    {
        &self.derivation_path
    }
}

/// A signer for simulated runs: it is addressed like a real signer but
/// produces a fixed dummy signature and never reaches the
/// threshold-signature service.
pub struct SimulationSigner {
    threshold_signer: ThresholdSigner,
}

impl SimulationSigner {
    /// The derivation path this signer stands in for.
    pub closed spec fn path(&self) -> Seq<Vec<u8>> {
        self.threshold_signer.path()
    }

    /// A simulation signer for the given derivation path.
    pub fn new(derivation_path: Vec<Vec<u8>>) -> (r: SimulationSigner)
        ensures
            r.path() == derivation_path@,
    {
        let threshold_signer = ThresholdSigner::new(derivation_path);
        SimulationSigner { threshold_signer }
    }

    /// Produces the fixed dummy signature, whatever the message hash:
    /// deterministic and stable across runs.
    pub fn sign_with_ecdsa(&self, msg_hash: Vec<u8>) -> (r: Result<Vec<u8>, String>)
        ensures
            r matches Ok(sig) && sig@ == simulated_signature(),
    {
        let mut sig: Vec<u8> = Vec::new();
        let mut i: usize = 0;
        while i < 64
            invariant
                i <= 64,
                sig@.len() == i,
                forall|j: int| 0 <= j < i ==> sig@[j] == 42u8,
            decreases 64 - i,
        {
            sig.push(42);
            i = i + 1;
        }
        proof {
            assert(sig@ =~= simulated_signature());
        }
        let _ = msg_hash;
        Ok(sig)
    }
}

} // verus!
