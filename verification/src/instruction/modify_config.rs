use vstd::prelude::*;
use vstd::bytes::*;

use crate::codec::{push_range, get_u32_le, get_u64_le, put_u32_le, put_u64_le, u32_at, u64_at};
use crate::state::multisig::{header_of, read_header, MultisigView, MULTISIG_LEN};
use crate::state::utils::DataLen;

verus! {

/// The payload of the instruction: the new thresholds and expiry duration, and the multisig's bump and id.
#[derive(Debug, Clone, Copy, PartialEq)]
pub struct ModifyConfigData {
    pub threshold: u8,
    pub max_expiry_duration: u32,
    pub veto_threshold: u8,
    pub bump: u8,
    pub multisig_id: u64,
}

impl DataLen for ModifyConfigData {
    const LEN: usize = 15;
}

impl ModifyConfigData {
    /// The payload as it is sent: field after field, integers in
    /// little-endian order.
    pub open spec fn to_layout(self) -> Seq<u8> {
        seq![self.threshold]
            + spec_u32_to_le_bytes(self.max_expiry_duration)
            + seq![self.veto_threshold, self.bump]
            + spec_u64_to_le_bytes(self.multisig_id)
    }

    /// The payload that the first `ModifyConfigData::LEN` bytes hold.
    pub open spec fn from_layout(s: Seq<u8>) -> ModifyConfigData {
        ModifyConfigData {
            threshold: s[0],
            max_expiry_duration: u32_at(s, 1),
            veto_threshold: s[5],
            bump: s[6],
            multisig_id: u64_at(s, 7),
        }
    }

    /// Reads the payload from the first `ModifyConfigData::LEN` bytes.
    pub fn from_bytes(bytes: &[u8]) -> (r: ModifyConfigData)
        requires
            bytes@.len() >= 15,
        ensures
            r == ModifyConfigData::from_layout(bytes@),
    {
        ModifyConfigData {
            threshold: bytes[0],
            max_expiry_duration: get_u32_le(bytes, 1),
            veto_threshold: bytes[5],
            bump: bytes[6],
            multisig_id: get_u64_le(bytes, 7),
        }
    }

    /// The payload as it is sent.
    pub fn to_bytes(&self) -> (r: [u8; 15])
        ensures
            r@ == self.to_layout(),
    {
        proof {
            lemma_auto_spec_u64_to_from_le_bytes();
            lemma_auto_spec_u32_to_from_le_bytes();
        }
        let mut bytes = [0u8; 15];
        bytes[0] = self.threshold;
        put_u32_le(&mut bytes, 1, self.max_expiry_duration);
        bytes[5] = self.veto_threshold;
        bytes[6] = self.bump;
        put_u64_le(&mut bytes, 7, self.multisig_id);
        assert(bytes@ =~= self.to_layout());
        bytes
    }
}

/// Reading back a sent payload gives the payload that was sent.
pub proof fn lemma_modify_config_data_roundtrip(d: ModifyConfigData)
    ensures
        d.to_layout().len() == 15,
        ModifyConfigData::from_layout(d.to_layout()) == d,
{
    lemma_auto_spec_u64_to_from_le_bytes();
    lemma_auto_spec_u32_to_from_le_bytes();
    let s = d.to_layout();
    assert(s.subrange(1, 5) =~= spec_u32_to_le_bytes(d.max_expiry_duration));
    assert(s.subrange(7, 15) =~= spec_u64_to_le_bytes(d.multisig_id));
}

/// Sending a payload read from `ModifyConfigData::LEN` bytes gives back those bytes.
pub proof fn lemma_modify_config_data_canonical(s: Seq<u8>)
    requires
        s.len() == 15,
    ensures
        ModifyConfigData::from_layout(s).to_layout() == s,
{
    lemma_auto_spec_u64_to_from_le_bytes();
    lemma_auto_spec_u32_to_from_le_bytes();
    assert(spec_u32_to_le_bytes(spec_u32_from_le_bytes(s.subrange(1, 5))) == s.subrange(1, 5));
    assert(spec_u64_to_le_bytes(spec_u64_from_le_bytes(s.subrange(7, 15))) == s.subrange(7, 15));
    assert(ModifyConfigData::from_layout(s).to_layout() =~= s);
}

/// The multisig account's data with the thresholds and the expiry duration
/// of `ix`; everything else stays.
pub open spec fn configured_layout(data: Seq<u8>, ix: ModifyConfigData) -> Seq<u8> {
    MultisigView {
        threshold: ix.threshold,
        max_expiry_duration: ix.max_expiry_duration,
        veto_threshold: ix.veto_threshold,
        ..header_of(data)
    }.to_layout() + data.skip(MULTISIG_LEN as int)
}

/// Sets the thresholds and the expiry duration of the multisig whose account
/// holds `data`.
pub fn modify_config_data(data: &[u8], ix: &ModifyConfigData) -> (r: Vec<u8>)
    requires
        data@.len() >= MULTISIG_LEN,
    ensures
        r@ == configured_layout(data@, *ix),
{
    let len: usize = data.len();
    let mut multisig = read_header(data);
    multisig.threshold = ix.threshold;
    multisig.max_expiry_duration = ix.max_expiry_duration;
    multisig.veto_threshold = ix.veto_threshold;
    let header = multisig.to_bytes();
    let mut d: Vec<u8> = Vec::new();
    push_range(&mut d, &header, 0, 90);
    assert(header@.subrange(0, 90) =~= header@);
    push_range(&mut d, data, 90, len);
    assert(data@.subrange(90, len as int) =~= data@.skip(90));
    d
}

} // verus!
