//! The static channel mapping: channel names resolved to server-assigned
//! ids during MCS connect, and the channel-join phase that turns them into
//! the joined-channels mapping every later phase addresses.

use vstd::prelude::*;
use crate::bytes::sub_vec;
use crate::error::RdpError;
use crate::mcs::ChannelJoinConfirm;

verus! {

/// Copies a byte string.
pub fn copy_bytes(v: &Vec<u8>) -> (r: Vec<u8>)
    ensures
        r@ == v@,
{
    let r = sub_vec(v, 0, v.len());
    proof {
        assert(v@.subrange(0, v@.len() as int) =~= v@);
    }
    r
}

/// The name of the mandatory global I/O channel.
pub open spec fn spec_global_channel_name() -> Seq<u8> {
    seq![71u8, 76u8, 79u8, 66u8, 65u8, 76u8]
}

/// The name of the mandatory user channel.
pub open spec fn spec_user_channel_name() -> Seq<u8> {
    seq![85u8, 83u8, 69u8, 82u8]
}

/// The global I/O channel name, as bytes ("GLOBAL").
pub fn global_channel_name() -> (r: Vec<u8>)
    ensures
        r@ == spec_global_channel_name(),
{
    let mut out: Vec<u8> = Vec::new();
    out.push(71u8);
    out.push(76u8);
    out.push(79u8);
    out.push(66u8);
    out.push(65u8);
    out.push(76u8);
    proof {
        assert(out@ =~= spec_global_channel_name());
    }
    out
}

/// The user channel name, as bytes ("USER").
pub fn user_channel_name() -> (r: Vec<u8>)
    ensures
        r@ == spec_user_channel_name(),
{
    let mut out: Vec<u8> = Vec::new();
    out.push(85u8);
    out.push(83u8);
    out.push(69u8);
    out.push(82u8);
    proof {
        assert(out@ =~= spec_user_channel_name());
    }
    out
}

/// Compares two byte strings for equality.
pub fn bytes_eq(a: &Vec<u8>, b: &Vec<u8>) -> (r: bool)
    ensures
        r == (a@ == b@),
{
    if a.len() != b.len() {
        return false;
    }
    let mut i: usize = 0;
    while i < a.len()
        invariant
            i <= a@.len(),
            a@.len() == b@.len(),
            forall|j: int| 0 <= j < i ==> a@[j] == b@[j],
        decreases a@.len() - i,
    {
        if a[i] != b[i] {
            return false;
        }
        i = i + 1;
    }
    proof {
        assert(a@ =~= b@);
    }
    true
}

/// An ordered list of named channels with their numeric ids. Before the
/// join phase it lists what must be joined; after it, what was joined.
#[derive(Debug)]
pub struct ChannelList {
    /// Name and id pairs, in join order.
    pub entries: Vec<(Vec<u8>, u16)>,
}

impl ChannelList {
    /// True when some entry carries this name.
    pub open spec fn spec_contains_name(self, name: Seq<u8>) -> bool {
        exists|i: int| 0 <= i < self.entries@.len() && self.entries@[i].0@ == name
    }

    /// True when some entry maps this name to this id.
    pub open spec fn spec_has_entry(self, name: Seq<u8>, id: u16) -> bool {
        exists|i: int|
            0 <= i < self.entries@.len() && self.entries@[i].0@ == name && self.entries@[i].1 == id
    }

    /// Looks a channel name up; `Some` exactly when the name is present,
    /// and then the id is one the list maps that name to.
    pub fn id_of(&self, name: &Vec<u8>) -> (r: Option<u16>)
        ensures
            match r {
                Some(id) => self.spec_has_entry(name@, id),
                None => !self.spec_contains_name(name@),
            },
    {
        let mut i: usize = 0;
        while i < self.entries.len()
            invariant
                i <= self.entries@.len(),
                forall|j: int| 0 <= j < i ==> self.entries@[j].0@ != name@,
            decreases self.entries@.len() - i,
        {
            if bytes_eq(&self.entries[i].0, name) {
                return Some(self.entries[i].1);
            }
            i = i + 1;
        }
        None
    }
}

/// Builds the list of channels the join phase must join: the global I/O
/// channel on the server's I/O channel id, the user channel on the
/// initiator's own user id, then every requested static channel on the id
/// the Connect-Response assigned it. Fails as an invalid response when the
/// server assigned a different number of ids than names were requested.
pub fn build_channel_list(
    io_channel_id: u16,
    user_channel_id: u16,
    requested_names: &Vec<Vec<u8>>,
    assigned_ids: &Vec<u16>,
) -> (r: Result<ChannelList, RdpError>)
    ensures
        match r {
            Ok(l) => requested_names@.len() == assigned_ids@.len() && l.entries@.len() == 2
                + requested_names@.len() && l.entries@[0].0@ == spec_global_channel_name()
                && l.entries@[0].1 == io_channel_id && l.entries@[1].0@
                == spec_user_channel_name() && l.entries@[1].1 == user_channel_id && (forall|
                i: int,
            |
                2 <= i < l.entries@.len() ==> l.entries@[i].0@ == requested_names@[i - 2]@
                    && l.entries@[i].1 == assigned_ids@[i - 2]),
            Err(e) => e == RdpError::InvalidResponse && requested_names@.len()
                != assigned_ids@.len(),
        },
{
    if requested_names.len() != assigned_ids.len() {
        return Err(RdpError::InvalidResponse);
    }
    let mut entries: Vec<(Vec<u8>, u16)> = Vec::new();
    entries.push((global_channel_name(), io_channel_id));
    entries.push((user_channel_name(), user_channel_id));
    let mut i: usize = 0;
    while i < requested_names.len()
        invariant
            i <= requested_names@.len(),
            requested_names@.len() == assigned_ids@.len(),
            entries@.len() == 2 + i,
            entries@[0].0@ == spec_global_channel_name(),
            entries@[0].1 == io_channel_id,
            entries@[1].0@ == spec_user_channel_name(),
            entries@[1].1 == user_channel_id,
            forall|j: int|
                2 <= j < entries@.len() ==> entries@[j].0@ == requested_names@[j - 2]@
                    && entries@[j].1 == assigned_ids@[j - 2],
        decreases requested_names@.len() - i,
    {
        let name = copy_bytes(&requested_names[i]);
        entries.push((name, assigned_ids[i]));
        proof {
            assert(entries@[i + 2].0@ == requested_names@[i as int]@);
        }
        i = i + 1;
    }
    Ok(ChannelList { entries })
}

/// True when the confirms answer the join list exactly: one confirm per
/// entry, each rt-successful and addressed to the channel id that was
/// requested for that entry.
pub open spec fn spec_joins_confirmed(
    to_join: ChannelList,
    confirms: Seq<ChannelJoinConfirm>,
) -> bool {
    &&& confirms.len() == to_join.entries@.len()
    &&& forall|i: int|
        0 <= i < confirms.len() ==> confirms[i].result == 0 && confirms[i].requested_channel_id
            == to_join.entries@[i].1
}

/// Runs the bookkeeping of the channel-join phase: checks that every
/// channel of the join list was confirmed successfully, and records the
/// joined ids under the original names. Any refused, missing or mismatched
/// confirm fails the whole phase as an MCS fault.
pub fn process_channel_joins(to_join: &ChannelList, confirms: &Vec<ChannelJoinConfirm>) -> (r:
    Result<ChannelList, RdpError>)
    ensures
        match r {
            Ok(j) => spec_joins_confirmed(*to_join, confirms@) && j.entries@.len()
                == to_join.entries@.len() && (forall|i: int|
                0 <= i < j.entries@.len() ==> j.entries@[i].0@ == to_join.entries@[i].0@
                    && j.entries@[i].1 == confirms@[i].channel_id),
            Err(e) => e == RdpError::McsError && !spec_joins_confirmed(*to_join, confirms@),
        },
{
    if confirms.len() != to_join.entries.len() {
        return Err(RdpError::McsError);
    }
    let mut joined: Vec<(Vec<u8>, u16)> = Vec::new();
    let mut i: usize = 0;
    while i < to_join.entries.len()
        invariant
            i <= to_join.entries@.len(),
            confirms@.len() == to_join.entries@.len(),
            joined@.len() == i,
            forall|j: int|
                0 <= j < i ==> confirms@[j].result == 0 && confirms@[j].requested_channel_id
                    == to_join.entries@[j].1,
            forall|j: int|
                0 <= j < i ==> joined@[j].0@ == to_join.entries@[j].0@ && joined@[j].1
                    == confirms@[j].channel_id,
        decreases to_join.entries@.len() - i,
    {
        let confirm: ChannelJoinConfirm = confirms[i];
        if confirm.result != 0 || confirm.requested_channel_id != to_join.entries[i].1 {
            return Err(RdpError::McsError);
        }
        let name = copy_bytes(&to_join.entries[i].0);
        joined.push((name, confirm.channel_id));
        proof {
            assert(joined@[i as int].0@ == to_join.entries@[i as int].0@);
        }
        i = i + 1;
    }
    Ok(ChannelList { entries: joined })
}

/// After a successful channel-join phase over a list built for the
/// mandatory channels, the joined mapping contains the global I/O channel
/// and the user channel: the premises are exactly what
/// `build_channel_list` and `process_channel_joins` ensure.
pub proof fn lemma_joined_channels_contain_required(joined: ChannelList, to_join: ChannelList)
    requires
        to_join.entries@.len() >= 2,
        to_join.entries@[0].0@ == spec_global_channel_name(),
        to_join.entries@[1].0@ == spec_user_channel_name(),
        joined.entries@.len() == to_join.entries@.len(),
        forall|i: int|
            0 <= i < joined.entries@.len() ==> joined.entries@[i].0@ == to_join.entries@[i].0@,
    ensures
        joined.spec_contains_name(spec_global_channel_name()),
        joined.spec_contains_name(spec_user_channel_name()),
{
    assert(joined.entries@[0].0@ == spec_global_channel_name());
    assert(joined.entries@[1].0@ == spec_user_channel_name());
}

} // verus!
