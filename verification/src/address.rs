//! The long-lived Mithras address: bech32m over version, network, suite
//! and the two public keys.
use vstd::prelude::*;

use crate::bytes::{append_bytes, sub_bytes};
use crate::errors::MithrasError;
use crate::metadata::{
    spec_known_network_byte, spec_network_byte, spec_network_eq, spec_suite_byte,
    SupportedHpkeSuite, SupportedNetwork,
};
use crate::primitives::{bech32_decode, bech32_decode_of, bech32m_encode, bech32m_of};

verus! {

/// Width of the address payload: version, network and suite bytes plus
/// the two 32-byte public keys.
pub const ADDR_PAYLOAD_SIZE: usize = 3 + 32 + 32;

/// The long-lived (spend, discovery) identity with its tags.
#[derive(Clone, Debug)]
pub struct MithrasAddr {
    pub version: u8,
    pub network: SupportedNetwork,
    pub suite: SupportedHpkeSuite,
    pub spend_ed25519: Vec<u8>,
    pub disc_x25519: Vec<u8>,
}

/// The bech32m payload of an address, byte for byte.
pub open spec fn spec_addr_payload(a: MithrasAddr) -> Seq<u8> {
    seq![a.version, spec_network_byte(a.network), spec_suite_byte(a.suite)] + a.spend_ed25519@
        + a.disc_x25519@
}

/// Whether the address `a` is what the payload bytes `d` describe. A
/// custom network's tag is not carried, so it parses back zeroed.
pub open spec fn spec_addr_parses_to(d: Seq<u8>, a: MithrasAddr) -> bool {
    &&& d.len() == ADDR_PAYLOAD_SIZE
    &&& a.version == d[0]
    &&& spec_network_byte(a.network) == d[1]
    &&& (a.network matches SupportedNetwork::Custom(t) ==> t@ == Seq::new(32nat, |i: int| 0u8))
    &&& spec_suite_byte(a.suite) == d[2]
    &&& a.spend_ed25519@ == d.subrange(3, 35)
    &&& a.disc_x25519@ == d.subrange(35, 67)
}

impl MithrasAddr {
    /// Key fields have their documented widths.
    pub open spec fn wf(&self) -> bool {
        &&& self.spend_ed25519@.len() == 32
        &&& self.disc_x25519@.len() == 32
        &&& self.network.wf()
    }

    /// Encode as bech32m under the `mith` prefix. Never fails on a
    /// well-formed address: the payload is far below the code-length
    /// limit.
    pub fn encode(&self) -> (r: Result<String, MithrasError>)
        requires
            self.wf(),
        ensures
            r is Ok,
            r matches Ok(s) ==> s@ == bech32m_of("mith"@, spec_addr_payload(*self)),
    {
        let mut data: Vec<u8> = Vec::new();
        data.push(self.version);
        data.push(self.network.byte());
        data.push(self.suite.byte());
        append_bytes(&mut data, &self.spend_ed25519);
        append_bytes(&mut data, &self.disc_x25519);
        proof {
            assert(data@ =~= spec_addr_payload(*self));
        }
        bech32m_encode("mith", &data)
    }

    /// Decode a bech32m address string. Succeeds exactly when the
    /// checksum is valid, the prefix is `mith`, the payload is the
    /// documented width, and the network and suite bytes are known.
    pub fn decode(s: &str) -> (r: Result<MithrasAddr, MithrasError>)
        ensures
            r is Ok <==> (bech32_decode_of(s@) matches Some(p) && p.0 == "mith"@ && p.1.len()
                == ADDR_PAYLOAD_SIZE && spec_known_network_byte(p.1[1]) && p.1[2] == 0),
            r matches Ok(a) ==> a.wf() && (bech32_decode_of(s@) matches Some(p)
                && spec_addr_parses_to(p.1, a)),
            bech32_decode_of(s@) is None ==> (r matches Err(e) && e == MithrasError::AddressBech32),
            (bech32_decode_of(s@) matches Some(p) && p.0 != "mith"@) ==> (r matches Err(e) && e
                == MithrasError::AddressWrongHrp),
            (bech32_decode_of(s@) matches Some(p) && p.0 == "mith"@ && p.1.len()
                != ADDR_PAYLOAD_SIZE) ==> (r matches Err(e) && e
                == MithrasError::AddressWrongLength),
            (bech32_decode_of(s@) matches Some(p) && p.0 == "mith"@ && p.1.len()
                == ADDR_PAYLOAD_SIZE && !spec_known_network_byte(p.1[1])) ==> (r matches Err(e)
                && e == MithrasError::AddressUnknownNetwork),
            (bech32_decode_of(s@) matches Some(p) && p.0 == "mith"@ && p.1.len()
                == ADDR_PAYLOAD_SIZE && spec_known_network_byte(p.1[1]) && p.1[2] != 0) ==> (
            r matches Err(e) && e == MithrasError::AddressUnknownSuite),
            forall|d0: Seq<u8>|
                s@ == bech32m_of("mith"@, d0) && d0.len() == ADDR_PAYLOAD_SIZE
                    && spec_known_network_byte(d0[1]) && d0[2] == 0 ==> (r matches Ok(a)
                    && spec_addr_parses_to(d0, a)),
    {
        let (hrp, data) = match bech32_decode(s) {
            Ok(p) => p,
            Err(e) => { return Err(e); },
        };
        let expected: String = "mith".to_owned();
        if hrp != expected {
            return Err(MithrasError::AddressWrongHrp);
        }
        if data.len() != ADDR_PAYLOAD_SIZE {
            return Err(MithrasError::AddressWrongLength);
        }
        let version = *data.get(0).unwrap();
        let network = match SupportedNetwork::from_byte(*data.get(1).unwrap()) {
            Some(n) => n,
            None => { return Err(MithrasError::AddressUnknownNetwork); },
        };
        let suite = match SupportedHpkeSuite::from_byte(*data.get(2).unwrap()) {
            Some(t) => t,
            None => { return Err(MithrasError::AddressUnknownSuite); },
        };
        let spend_ed25519 = sub_bytes(&data, 3, 35);
        let disc_x25519 = sub_bytes(&data, 35, 67);
        Ok(MithrasAddr { version, network, suite, spend_ed25519, disc_x25519 })
    }

    /// Assemble an address from its parts.
    pub fn from_keys(
        spend: &Vec<u8>,
        disc: &Vec<u8>,
        version: u8,
        network: SupportedNetwork,
        suite: SupportedHpkeSuite,
    ) -> (r: MithrasAddr)
        requires
            spend@.len() == 32,
            disc@.len() == 32,
            network.wf(),
        ensures
            r.wf(),
            r.version == version,
            r.network == network,
            r.suite == suite,
            r.spend_ed25519@ == spend@,
            r.disc_x25519@ == disc@,
    {
        MithrasAddr {
            version,
            network,
            suite,
            spend_ed25519: spend.clone(),
            disc_x25519: disc.clone(),
        }
    }
}

impl PartialEq for MithrasAddr {
    fn eq(&self, other: &Self) -> (r: bool) {
        self.version == other.version && self.network == other.network && self.suite
            == other.suite && crate::bytes::bytes_eq(&self.spend_ed25519, &other.spend_ed25519)
            && crate::bytes::bytes_eq(&self.disc_x25519, &other.disc_x25519)
    }
}

impl vstd::std_specs::cmp::PartialEqSpecImpl for MithrasAddr {
    open spec fn obeys_eq_spec() -> bool {
        true
    }

    open spec fn eq_spec(&self, other: &Self) -> bool {
        &&& self.version == other.version
        &&& spec_network_eq(self.network, other.network)
        &&& self.suite == other.suite
        &&& self.spend_ed25519@ == other.spend_ed25519@
        &&& self.disc_x25519@ == other.disc_x25519@
    }
}

/// Address round trip: the payload of a well-formed address whose custom
/// tag, if any, is zero parses back to the address itself, and to nothing
/// else. Together with the encode and decode contracts this pins
/// decode(encode(a)) == a.
pub proof fn lemma_address_round_trip(a: MithrasAddr)
    requires
        a.wf(),
        a.network matches SupportedNetwork::Custom(t) ==> t@ == Seq::new(32nat, |i: int| 0u8),
    ensures
        spec_addr_payload(a).len() == ADDR_PAYLOAD_SIZE,
        spec_addr_parses_to(spec_addr_payload(a), a),
        forall|a2: MithrasAddr|
            spec_addr_parses_to(spec_addr_payload(a), a2) ==> a2.version == a.version
                && spec_network_eq(a2.network, a.network) && a2.suite == a.suite && a2.spend_ed25519@
                == a.spend_ed25519@ && a2.disc_x25519@ == a.disc_x25519@,
{
    let d = spec_addr_payload(a);
    assert(d.subrange(3, 35) =~= a.spend_ed25519@);
    assert(d.subrange(35, 67) =~= a.disc_x25519@);
    assert forall|a2: MithrasAddr| spec_addr_parses_to(d, a2) implies a2.version == a.version
        && spec_network_eq(a2.network, a.network) && a2.suite == a.suite && a2.spend_ed25519@
        == a.spend_ed25519@ && a2.disc_x25519@ == a.disc_x25519@ by {
        assert(spec_network_byte(a2.network) == spec_network_byte(a.network));
    }
}

} // verus!
