//! Get all the information about a schedule.

use vstd::prelude::*;

use crate::entity::ScheduleId;
use crate::envelope::Query;
use crate::wire::{
    spec_wire_schedule_id, to_signed_bits, WireQuery, WireQueryData, WireQueryHeader,
    WireScheduleGetInfoQuery, WireScheduleId,
};

verus! {

/// A query for the information held about a schedule.
pub type ScheduleInfoQuery = Query<ScheduleInfoQueryData>;

/// The field set of the schedule-information variant.
#[derive(Debug, Clone, Copy, PartialEq, Eq, Structural)]
pub struct ScheduleInfoQueryData {
    /// The schedule for which information is requested.
    pub schedule_id: Option<ScheduleId>,
}

/// The documented defaults of the schedule-information variant.
pub open spec fn schedule_info_defaults() -> ScheduleInfoQueryData {
    ScheduleInfoQueryData { schedule_id: None }
}

impl Default for ScheduleInfoQueryData {
    /// The variant at its documented defaults.
    fn default() -> (r: Self)
        ensures
            r == schedule_info_defaults(),
    {
        ScheduleInfoQueryData { schedule_id: None }
    }
}

impl ScheduleInfoQuery {
    /// An envelope holding the variant at its documented defaults, header
    /// fields absent.
    pub fn new() -> (r: Self)
        ensures
            r.data == schedule_info_defaults(),
            r.node_account_id is None,
    {
        Query { data: ScheduleInfoQueryData::default(), node_account_id: None }
    }

    /// Sets the schedule for which information is requested.
    pub fn schedule_id(&mut self, id: ScheduleId)
        ensures
            final(self).data == (ScheduleInfoQueryData { schedule_id: Some(id) }),
            final(self).node_account_id == old(self).node_account_id,
    {
        self.data.schedule_id = Some(id);
    }
}

/// Whether `r` is exactly the wire message of the schedule-information field
/// set `m` under the given query header: an absent schedule reference is
/// omitted, a present one reinterpreted part-wise by bit pattern.
pub open spec fn is_schedule_info_wire(
    m: ScheduleInfoQueryData,
    header: WireQueryHeader,
    r: WireQuery,
) -> bool {
    r == (WireQuery {
        query: Some(
            WireQueryData::ScheduleGetInfo(
                WireScheduleGetInfoQuery {
                    schedule_id: match m.schedule_id {
                        Some(id) => Some(spec_wire_schedule_id(id.shard, id.realm, id.num)),
                        None => None,
                    },
                    header: Some(header),
                },
            ),
        ),
    })
}

impl ScheduleInfoQueryData {
    /// Produces the wire message for the current field values under the
    /// given query header. Transcoding is total and pure.
    pub fn to_query_protobuf(&self, header: WireQueryHeader) -> (r: WireQuery)
        ensures
            is_schedule_info_wire(*self, header, r),
    {
        let schedule_id = match &self.schedule_id {
            Some(id) => Some(
                WireScheduleId {
                    shard_num: to_signed_bits(id.shard),
                    realm_num: to_signed_bits(id.realm),
                    schedule_num: to_signed_bits(id.num),
                },
            ),
            None => None,
        };
        WireQuery {
            query: Some(
                WireQueryData::ScheduleGetInfo(
                    WireScheduleGetInfoQuery { schedule_id, header: Some(header) },
                ),
            ),
        }
    }
}

// ---------------------------------------------------------------------------
// Document schema
// ---------------------------------------------------------------------------

/// The document form of the schedule-information variant.
#[derive(Debug, Clone, Copy, PartialEq, Eq, Structural)]
pub struct ScheduleInfoDocument {
    pub schedule_id: Option<ScheduleId>,
}

/// What encoding the schedule-information variant yields.
pub open spec fn encode_schedule_info(m: ScheduleInfoQueryData) -> ScheduleInfoDocument {
    ScheduleInfoDocument { schedule_id: m.schedule_id }
}

/// What decoding a schedule-information document yields: a missing entry
/// takes the documented default.
pub open spec fn decode_schedule_info(d: ScheduleInfoDocument) -> ScheduleInfoQueryData {
    ScheduleInfoQueryData { schedule_id: d.schedule_id }
}

/// Round-trip law: decoding the encoding of any reachable field set yields
/// the original.
pub proof fn lemma_schedule_info_round_trip(m: ScheduleInfoQueryData)
    ensures
        decode_schedule_info(encode_schedule_info(m)) == m,
{
}

/// Default law: decoding a document with no entries yields the variant's
/// documented defaults.
pub proof fn lemma_schedule_info_default_decode()
    ensures
        decode_schedule_info(ScheduleInfoDocument { schedule_id: None })
            == schedule_info_defaults(),
{
}

impl ScheduleInfoQueryData {
    /// Encodes the variant into its document form.
    pub fn to_document(&self) -> (r: ScheduleInfoDocument)
        ensures
            r == encode_schedule_info(*self),
    {
        ScheduleInfoDocument { schedule_id: self.schedule_id }
    }

    /// Decodes a document into the variant, filling missing entries with the
    /// documented defaults.
    pub fn from_document(d: ScheduleInfoDocument) -> (r: Self)
        ensures
            r == decode_schedule_info(d),
    {
        ScheduleInfoQueryData { schedule_id: d.schedule_id }
    }
}

} // verus!
