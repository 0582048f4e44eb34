//! Attribute- and group-based authorization core.
//!
//! Given a subject, an object and a requested access mask, the library walks
//! the subject's and the object's group graphs, joins permission records
//! against the subject closure, and returns the granted subset of the request.
//! Storage is abstract: records come from a key-value port supplied by the
//! caller.

pub mod access;
pub mod authorize_obj_group;
pub mod charmap;
pub mod common;
pub mod jsonval;
pub mod prepare_obj_group;
pub mod strmap;
pub mod strutil;
pub mod trace;

use vstd::prelude::*;
use vstd::string::*;
use crate::access::{lemma_grant_chain, lemma_self_window};
use crate::authorize_obj_group::authorize_obj_group;
use crate::charmap::CharMap;
use crate::prepare_obj_group::prepare_obj_group;
use crate::strmap::StrMap;
use crate::strutil::{dec_of, u32_dec_string};
use crate::common::{
    Storage, StorageError, Trace, final_check, get_filter, get_resource_groups,
    print_to_trace_info, access_to_pretty_string, pretty_of, M_IS_EXCLUSIVE, M_IGNORE_EXCLUSIVE,
    MEMBERSHIP_PREFIX,
};
use crate::trace::{TraceInfo, TraceMode};

verus! {

/// The marker character of a record that carries no marker.
pub const NO_MARKER: char = '\0';

/// One access record: an entity, its mask, its marker and bookkeeping.
pub struct ACLRecord {
    /// The entity this record speaks about.
    pub id: String,
    /// The raw access mask: positive rights low, denials high.
    pub access: u8,
    /// `'X'` marks an exclusive group, `'N'` suppresses exclusivity; any
    /// other character is neutral.
    pub marker: char,
    /// Whether the stored record was flagged deleted.
    pub is_deleted: bool,
    /// The traversal depth this record was produced at.
    pub level: u8,
    /// Reference counts per right character.
    pub counters: CharMap<u16>,
}

/// The mask bit a right character stands for; unknown characters carry none.
pub open spec fn right_bit(right: char) -> u8 {
    if right == 'C' {
        1
    } else if right == 'R' {
        2
    } else if right == 'U' {
        4
    } else if right == 'D' {
        8
    } else {
        0
    }
}

impl ACLRecord {
    /// A record with full positive access and no marker.
    pub fn new(id: &str) -> (r: Self)
        ensures
            r.id@ == id@,
            r.access == 15,
            r.marker == NO_MARKER,
            r.is_deleted == false,
            r.level == 0,
            r.counters@ == Map::<char, u16>::empty(),
    {
        ACLRecord {
            id: id.to_owned(),
            access: 15,
            marker: NO_MARKER,
            is_deleted: false,
            level: 0,
            counters: CharMap::new(),
        }
    }

    /// A record with the given access mask and no marker.
    pub fn new_with_access(id: &str, access: u8) -> (r: Self)
        ensures
            r.id@ == id@,
            r.access == access,
            r.marker == NO_MARKER,
            r.is_deleted == false,
            r.level == 0,
            r.counters@ == Map::<char, u16>::empty(),
    {
        ACLRecord {
            id: id.to_owned(),
            access,
            marker: NO_MARKER,
            is_deleted: false,
            level: 0,
            counters: CharMap::new(),
        }
    }

    /// Adds one reference to a right and sets its mask bit.
    pub fn add_right(&mut self, right: char)
        requires
            old(self).counters@.contains_key(right) ==> old(self).counters@[right] < 0xFFFF,
        ensures
            final(self).counters@ == old(self).counters@.insert(
                right,
                (if old(self).counters@.contains_key(right) {
                    old(self).counters@[right] + 1
                } else {
                    1int
                }) as u16,
            ),
            final(self).access == old(self).access | right_bit(right),
            final(self).id == old(self).id,
            final(self).marker == old(self).marker,
            final(self).is_deleted == old(self).is_deleted,
            final(self).level == old(self).level,
    {
        let count: u16 = match self.counters.get(right) {
            Some(c) => *c,
            None => 0,
        };
        self.counters.insert(right, count + 1);
        match right {
            'C' => {
                self.access = self.access | 1;
            },
            'R' => {
                self.access = self.access | 2;
            },
            'U' => {
                self.access = self.access | 4;
            },
            'D' => {
                self.access = self.access | 8;
            },
            _ => {
                proof {
                    assert(self.access | 0 == self.access) by (bit_vector);
                }
            },
        }
    }

    /// Drops one reference to a right; at zero references the right and its
    /// mask bit go away and the call reports full removal.
    pub fn remove_right(&mut self, right: char) -> (r: bool)
        requires
            old(self).counters@.contains_key(right) ==> old(self).counters@[right] >= 1,
        ensures
            r == (old(self).counters@.contains_key(right) && old(self).counters@[right] == 1),
            !old(self).counters@.contains_key(right) ==> *final(self) == *old(self),
            old(self).counters@.contains_key(right) && old(self).counters@[right] > 1 ==> {
                &&& final(self).counters@ == old(self).counters@.insert(
                    right,
                    (old(self).counters@[right] - 1) as u16,
                )
                &&& final(self).access == old(self).access
            },
            old(self).counters@.contains_key(right) && old(self).counters@[right] == 1 ==> {
                &&& final(self).counters@ == old(self).counters@.remove(right)
                &&& final(self).access == old(self).access & (right_bit(right) ^ 0xFF)
            },
            final(self).id == old(self).id,
            final(self).marker == old(self).marker,
            final(self).is_deleted == old(self).is_deleted,
            final(self).level == old(self).level,
    {
        let count: u16 = match self.counters.get(right) {
            Some(c) => *c,
            None => {
                return false;
            },
        };
        if count == 1 {
            self.counters.remove(right);
            match right {
                'C' => {
                    self.access = self.access & 0xFE;
                    proof {
                        assert(1u8 ^ 0xFF == 0xFE) by (bit_vector);
                    }
                },
                'R' => {
                    self.access = self.access & 0xFD;
                    proof {
                        assert(2u8 ^ 0xFF == 0xFD) by (bit_vector);
                    }
                },
                'U' => {
                    self.access = self.access & 0xFB;
                    proof {
                        assert(4u8 ^ 0xFF == 0xFB) by (bit_vector);
                    }
                },
                'D' => {
                    self.access = self.access & 0xF7;
                    proof {
                        assert(8u8 ^ 0xFF == 0xF7) by (bit_vector);
                    }
                },
                _ => {
                    proof {
                        let a = self.access;
                        assert(a & (0u8 ^ 0xFF) == a) by (bit_vector);
                    }
                },
            }
            true
        } else {
            self.counters.insert(right, count - 1);
            false
        }
    }

    /// Whether the right has at least one reference.
    pub fn has_right(&self, right: char) -> (r: bool)
        ensures
            r == (self.counters@.contains_key(right) && self.counters@[right] > 0),
    {
        match self.counters.get(right) {
            Some(c) => *c > 0,
            None => false,
        }
    }

    /// The reference count of a right.
    pub fn get_right_count(&self, right: char) -> (r: u16)
        ensures
            r == if self.counters@.contains_key(right) {
                self.counters@[right]
            } else {
                0u16
            },
    {
        match self.counters.get(right) {
            Some(c) => *c,
            None => 0,
        }
    }

    /// A one-line rendering of the record: id, pretty-printed mask, a tag
    /// for the marker, and the level.
    pub fn describe(&self) -> (r: String)
        ensures
            r@ == "("@ + self.id@ + ", "@ + pretty_of(self.access) + ", "@ + marker_tag(
                self.marker,
            ) + ", "@ + dec_of(self.level as u32) + ")"@,
    {
        let mut s = String::from_str("(");
        s.append(self.id.as_str());
        s.append(", ");
        let pretty = access_to_pretty_string(self.access);
        s.append(pretty.as_str());
        s.append(", ");
        if self.marker == M_IGNORE_EXCLUSIVE {
            s.append("-E");
        } else if self.marker == M_IS_EXCLUSIVE {
            s.append("+E");
        } else {
            s.append("?");
        }
        s.append(", ");
        let lvl = u32_dec_string(self.level as u32);
        s.append(lvl.as_str());
        s.append(")");
        s
    }
}

/// The tag `describe` prints for a marker.
pub open spec fn marker_tag(marker: char) -> Seq<char> {
    if marker == 'N' {
        "-E"@
    } else if marker == 'X' {
        "+E"@
    } else {
        "?"@
    }
}

/// A set of access records keyed by entity id.
pub type ACLRecordSet = StrMap<ACLRecord>;

/// Per-call traversal state: the accumulated grant, the exclusive flags,
/// the memoization tables of both graph walks, and the active filter.
pub struct AzContext {
    /// The object the call is about.
    pub id: String,
    /// The subject the call is about.
    pub user_id: String,
    /// The requested access mask.
    pub request_access: u8,
    /// The granted bits accumulated so far.
    pub calc_right_res: u8,
    /// Whether a marker-`X` subject group was seen, demanding evidence on
    /// the object side.
    pub is_need_exclusive_az: bool,
    /// Whether that evidence was found.
    pub is_found_exclusive_az: bool,
    /// Visited subject groups with their merged mask and marker.
    pub walked_groups_s: StrMap<(u8, char)>,
    /// Parent links of the subject walk, for trace reconstruction.
    pub tree_groups_s: StrMap<String>,
    /// Visited object groups with their merged mask.
    pub walked_groups_o: StrMap<u8>,
    /// Parent links of the object walk, for trace reconstruction.
    pub tree_groups_o: StrMap<String>,
    /// The flattened subject closure the evaluator joins against.
    pub subject_groups: StrMap<ACLRecord>,
    /// Object groups already evaluated, keyed by the mask they were
    /// evaluated under.
    pub checked_groups: StrMap<u8>,
    /// The active filter prefix during the second pass; empty otherwise.
    pub filter_value: String,
}

impl AzContext {
    /// A fresh context for one authorization call.
    pub fn new(id: &str, user_id: &str, request_access: u8) -> (r: Self)
        ensures
            r.id@ == id@,
            r.user_id@ == user_id@,
            r.request_access == request_access,
            r.calc_right_res == 0,
            !r.is_need_exclusive_az,
            !r.is_found_exclusive_az,
            r.walked_groups_s@ == Map::<Seq<char>, (u8, char)>::empty(),
            r.tree_groups_s@ == Map::<Seq<char>, String>::empty(),
            r.walked_groups_o@ == Map::<Seq<char>, u8>::empty(),
            r.tree_groups_o@ == Map::<Seq<char>, String>::empty(),
            r.subject_groups@ == Map::<Seq<char>, ACLRecord>::empty(),
            r.checked_groups@ == Map::<Seq<char>, u8>::empty(),
            r.filter_value@ == Seq::<char>::empty(),
    {
        AzContext {
            id: id.to_owned(),
            user_id: user_id.to_owned(),
            request_access,
            calc_right_res: 0,
            is_need_exclusive_az: false,
            is_found_exclusive_az: false,
            walked_groups_s: StrMap::new(),
            tree_groups_s: StrMap::new(),
            walked_groups_o: StrMap::new(),
            tree_groups_o: StrMap::new(),
            subject_groups: StrMap::new(),
            checked_groups: StrMap::new(),
            filter_value: String::new(),
        }
    }

    /// Builds the subject closure: every group reachable from `user_id`
    /// through membership records, plus the subject itself with the full
    /// positive mask.
    pub fn build_subject_closure<S: Storage>(
        &mut self,
        t: &mut Trace,
        user_id: &str,
        db: &mut S,
    ) -> (r: Result<(), StorageError>)
        ensures
            r matches Ok(_) ==> final(self).subject_groups@.contains_key(user_id@)
                && final(self).subject_groups@[user_id@].access == 15
                && final(self).subject_groups@[user_id@].id@ == user_id@,
            final(self).calc_right_res == old(self).calc_right_res,
            final(self).is_found_exclusive_az == old(self).is_found_exclusive_az,
            old(self).is_need_exclusive_az ==> final(self).is_need_exclusive_az,
            final(self).walked_groups_o == old(self).walked_groups_o,
            final(self).checked_groups == old(self).checked_groups,
            final(self).filter_value == old(self).filter_value,
            final(self).id == old(self).id,
            final(self).user_id == old(self).user_id,
            final(self).request_access == old(self).request_access,
            final(t).is_acl == old(t).is_acl,
            final(t).is_group == old(t).is_group,
            final(t).is_info == old(t).is_info,
    {
        let mut s_groups: ACLRecordSet = StrMap::new();
        get_resource_groups(self, t, user_id, 15, &mut s_groups, 0, db, false)?;
        db.fiber_yield();
        s_groups.insert(user_id.to_owned(), ACLRecord::new(user_id));
        self.subject_groups = s_groups;
        Ok(())
    }
}

/// Probes the universal object group and the object itself, then runs the
/// object traversal; reports a granted mask as soon as a probe succeeds and
/// the finalization rule passes.
fn authorize_obj_groups<S: Storage>(
    id: &str,
    request_access: u8,
    db: &mut S,
    t: &mut Trace,
    azc: &mut AzContext,
) -> (r: Option<Result<u8, StorageError>>)
    ensures
        old(azc).calc_right_res & final(azc).calc_right_res == old(azc).calc_right_res,
        final(azc).calc_right_res & (old(azc).calc_right_res | request_access) == final(azc).calc_right_res,
        r matches Some(Ok(g)) ==> g & (old(azc).calc_right_res | request_access) == g,
        final(azc).is_need_exclusive_az == old(azc).is_need_exclusive_az,
        old(azc).is_found_exclusive_az ==> final(azc).is_found_exclusive_az,
        final(azc).subject_groups == old(azc).subject_groups,
        final(azc).walked_groups_s == old(azc).walked_groups_s,
        final(azc).filter_value == old(azc).filter_value,
        final(azc).id == old(azc).id,
        final(azc).user_id == old(azc).user_id,
        final(azc).request_access == old(azc).request_access,
        final(t).is_acl == old(t).is_acl,
        final(t).is_group == old(t).is_group,
        final(t).is_info == old(t).is_info,
{
    proof {
        lemma_self_window(old(azc).calc_right_res, request_access);
    }
    match authorize_obj_group(azc, t, request_access, "v-s:AllResourcesGroup", 15, db) {
        Ok(res) => {
            if res && final_check(azc, t) {
                return Some(Ok(azc.calc_right_res));
            }
        },
        Err(e) => {
            return Some(Err(e));
        },
    }
    let ghost c1 = azc.calc_right_res;
    match authorize_obj_group(azc, t, request_access, id, 15, db) {
        Ok(res) => {
            proof {
                lemma_grant_chain(old(azc).calc_right_res, c1, azc.calc_right_res, request_access);
            }
            if res && final_check(azc, t) {
                return Some(Ok(azc.calc_right_res));
            }
        },
        Err(e) => {
            proof {
                lemma_grant_chain(old(azc).calc_right_res, c1, azc.calc_right_res, request_access);
            }
            return Some(Err(e));
        },
    }
    let ghost c2 = azc.calc_right_res;
    match prepare_obj_group(azc, t, request_access, id, 15, 0, db) {
        Ok(res) => {
            proof {
                lemma_grant_chain(old(azc).calc_right_res, c2, azc.calc_right_res, request_access);
            }
            if res && final_check(azc, t) {
                return Some(Ok(azc.calc_right_res));
            }
        },
        Err(e) => {
            proof {
                lemma_grant_chain(old(azc).calc_right_res, c2, azc.calc_right_res, request_access);
            }
            return Some(Err(e));
        },
    }
    None
}

/// Applies a discovered filter record to the request: a filter with a
/// non-empty id restricts the first pass to `request & filter.access` and
/// becomes the active filter value; a filter with an empty id leaves the
/// request unrestricted.
pub fn apply_filter_restriction(request_access: u8, f: ACLRecord) -> (r: (String, u8))
    ensures
        r.0 == f.id,
        f.id@.len() > 0 ==> r.1 == (request_access & f.access),
        f.id@.len() == 0 ==> r.1 == request_access,
        r.1 & request_access == r.1,
{
    proof {
        let req = request_access;
        let fa = f.access;
        assert((req & fa) & req == (req & fa) && req & req == req) by (bit_vector);
    }
    let filter_value = f.id;
    if !filter_value.as_str().is_empty() {
        (filter_value, request_access & f.access)
    } else {
        (filter_value, request_access)
    }
}

/// The two-pass driver behind `authorize` and `trace`: builds the subject
/// closure, discovers a filter among the object's first-level groups, runs
/// the restricted pass, and where a filter was active repeats the traversal
/// unrestricted.
fn authorize_and_trace<S: Storage>(
    id: &str,
    user_id: &str,
    request_access: u8,
    db: &mut S,
    t: &mut Trace,
    _trace_info: &mut TraceInfo,
) -> (r: Result<u8, StorageError>)
    ensures
        r matches Ok(g) ==> g & request_access == g,
        *final(_trace_info) == *old(_trace_info),
{
    let mut azc = AzContext::new(id, user_id, request_access);
    if t.is_info {
        let mut msg = String::from_str("authorize uri=");
        msg.append(id);
        msg.append(", user=");
        msg.append(user_id);
        msg.append(", request_access=");
        let pr = access_to_pretty_string(request_access);
        msg.append(pr.as_str());
        msg.append("\n");
        print_to_trace_info(t, msg);
    }
    azc.build_subject_closure(t, user_id, db)?;
    let mut first_level_object_groups: Vec<ACLRecord> = Vec::new();
    first_level_object_groups.push(ACLRecord::new(id));
    let mut key = String::from_str(MEMBERSHIP_PREFIX);
    key.append(id);
    match db.get(key.as_str()) {
        Ok(Some(groups_str)) => {
            if !db.decode_rec_to_rights(groups_str.as_str(), &mut first_level_object_groups) {
                return Err(
                    StorageError {
                        message: String::from_str("membership record decode failed"),
                    },
                );
            }
        },
        Err(e) => {
            return Err(e);
        },
        Ok(None) => {},
    }
    let mut request_access_with_filter = request_access;
    let mut filter_value = String::new();
    proof {
        assert(request_access & request_access == request_access) by (bit_vector);
    }
    let n = first_level_object_groups.len();
    let mut i: usize = 0;
    while i < n
        invariant
            n == first_level_object_groups@.len(),
            i <= n,
            request_access_with_filter & request_access == request_access_with_filter,
        decreases n - i,
    {
        if azc.filter_value.as_str().is_empty() {
            match get_filter(first_level_object_groups[i].id.as_str(), db) {
                Ok(Some(f)) => {
                    let restricted = apply_filter_restriction(request_access, f);
                    filter_value = restricted.0;
                    request_access_with_filter = restricted.1;
                    break;
                },
                Ok(None) => {},
                Err(e) => {
                    return Err(e);
                },
            }
        }
        i = i + 1;
    }
    proof {
        lemma_self_window(0u8, request_access);
    }
    let opt = authorize_obj_groups(id, request_access_with_filter, db, t, &mut azc);
    if let Some(r) = opt {
        proof {
            match r {
                Ok(g) => {
                    let req1 = request_access_with_filter;
                    let req = request_access;
                    assert((g & (0u8 | req1) == g && req1 & req == req1) ==> g & req == g)
                        by (bit_vector);
                },
                Err(_) => {},
            }
        }
        return r;
    }
    proof {
        let c = azc.calc_right_res;
        let req1 = request_access_with_filter;
        let req = request_access;
        assert((c & (0u8 | req1) == c && req1 & req == req1) ==> (c & req == c && c & (c | req)
            == c && (c | req) == req)) by (bit_vector);
    }
    azc.filter_value = filter_value;
    if !azc.filter_value.as_str().is_empty() {
        azc.checked_groups.clear();
        azc.walked_groups_o.clear();
        let ghost c1 = azc.calc_right_res;
        let opt2 = authorize_obj_groups(id, request_access, db, t, &mut azc);
        if let Some(r) = opt2 {
            proof {
                match r {
                    Ok(g) => {
                        let c = c1;
                        let req = request_access;
                        assert((c & req == c && g & (c | req) == g) ==> g & req == g)
                            by (bit_vector);
                    },
                    Err(_) => {},
                }
            }
            return r;
        }
        proof {
            let c = c1;
            let c2 = azc.calc_right_res;
            let req = request_access;
            assert((c & req == c && c2 & (c | req) == c2) ==> c2 & req == c2) by (bit_vector);
        }
    }
    if final_check(&mut azc, t) {
        Ok(azc.calc_right_res)
    } else {
        if t.is_acl {
            t.acl = String::new();
        }
        if t.is_info {
            let mut msg = String::from_str("result: uri=");
            msg.append(azc.id.as_str());
            msg.append(", user=");
            msg.append(azc.user_id.as_str());
            msg.append(", request=");
            let pr = access_to_pretty_string(azc.request_access);
            msg.append(pr.as_str());
            msg.append(", answer=");
            let pz = access_to_pretty_string(0);
            msg.append(pz.as_str());
            msg.append("\n\n");
            print_to_trace_info(t, msg);
        }
        proof {
            let req = request_access;
            assert(0u8 & req == 0u8) by (bit_vector);
        }
        Ok(0)
    }
}

/// Decides which bits of `request_access` the subject `user_id` holds on
/// the object `id`: the granted mask is always a subset of the request, and
/// zero means access denied.
pub fn authorize<S: Storage>(
    id: &str,
    user_id: &str,
    request_access: u8,
    db: &mut S,
    t: &mut Trace,
) -> (r: Result<u8, StorageError>)
    ensures
        r matches Ok(g) ==> g & request_access == g,
{
    let mut trace_info = TraceInfo::new(TraceMode::Disabled);
    authorize_and_trace(id, user_id, request_access, db, t, &mut trace_info)
}

/// Runs an authorization with a detailed trace tree and returns the tree,
/// which the driver never edits: a fresh detailed tree, a bare root step.
pub fn trace<S: Storage>(
    id: &str,
    user_id: &str,
    request_access: u8,
    db: &mut S,
) -> (r: Result<TraceInfo, StorageError>)
    ensures
        r matches Ok(ti) ==> (ti.mode == TraceMode::Detailed && ti.current_path@.len() == 0
            && ti.id is None && ti.user_id is None && ti.request_access is None && (
        ti.root matches Some(root) && root is Step && crate::trace::node_name(root)
            == "authorize"@ && crate::trace::node_children(root).len() == 0
            && crate::trace::node_rights(root) == 0 && crate::trace::node_groups(root)
            == Set::<Seq<char>>::empty() && crate::trace::node_details(root) == Map::<
            Seq<char>,
            String,
        >::empty())),
{
    let mut trace_info = TraceInfo::new(TraceMode::Detailed);
    let mut tr = Trace {
        acl: String::new(),
        is_acl: false,
        group: String::new(),
        is_group: false,
        info: String::new(),
        is_info: false,
        str_num: 0,
    };
    match authorize_and_trace(id, user_id, request_access, db, &mut tr, &mut trace_info) {
        Ok(_) => Ok(trace_info),
        Err(e) => Err(e),
    }
}

} // verus!
