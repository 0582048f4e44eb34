//! The storage port, the line-oriented trace sink, and the subject-side
//! group walk.

use vstd::prelude::*;
use vstd::string::*;
use crate::{ACLRecord, ACLRecordSet, AzContext, NO_MARKER};
use crate::charmap::CharMap;
use crate::strmap::StrMap;
use crate::strutil::{dec_of, str_eq, u32_dec_string};

verus! {

/// Key prefix of permission records.
pub const PERMISSION_PREFIX: &'static str = "P";

/// Key prefix of filter records.
pub const FILTER_PREFIX: &'static str = "F";

/// Key prefix of membership records.
pub const MEMBERSHIP_PREFIX: &'static str = "M";

/// Marker of an exclusive group.
pub const M_IS_EXCLUSIVE: char = 'X';

/// Marker that suppresses exclusivity below the marked group.
pub const M_IGNORE_EXCLUSIVE: char = 'N';

/// The canonical positive-bit enumeration order.
pub const ACCESS_8_LIST: [u8; 4] = [1, 2, 4, 8];

/// Positive and denial bits in enumeration order.
pub const ACCESS_8_FULL_LIST: [u8; 8] = [1, 2, 4, 8, 16, 32, 64, 128];

/// An error handed up from the storage port.
#[derive(Debug)]
pub struct StorageError {
    /// What the port reported.
    pub message: String,
}

/// The key-value port the traversal reads through.  Implementations decide
/// the blob format; the core treats blobs as opaque and decodes through the
/// port itself.
pub trait Storage {
    /// Looks a key up; `None` means the key is absent.
    fn get(&mut self, key: &str) -> Result<Option<String>, StorageError>;

    /// A cooperative scheduling hint; may do nothing.
    fn fiber_yield(&self);

    /// Decodes a membership or permission blob into records, appending to
    /// `result`; reports whether decoding succeeded.
    fn decode_rec_to_rights(&self, src: &str, result: &mut Vec<ACLRecord>) -> bool;

    /// Decodes a blob into a record set keyed by id; reports whether
    /// decoding succeeded.
    fn decode_rec_to_rightset(&self, src: &str, new_rights: &mut ACLRecordSet) -> bool;

    /// Decodes a filter blob into at most one record.
    fn decode_filter(&self, filter_value: String) -> Option<ACLRecord>;
}

/// The interface a full authorizer offers its callers.
pub trait AuthorizationContext {
    /// Decides an access request.
    fn authorize(&mut self, uri: &str, user_uri: &str, request_access: u8,
        _is_check_for_reload: bool) -> Result<u8, StorageError>;

    /// Decides an access request while feeding the given trace sink.
    fn authorize_and_trace(&mut self, uri: &str, user_uri: &str, request_access: u8,
        _is_check_for_reload: bool, t: &mut Trace) -> Result<u8, StorageError>;
}

/// Line-oriented trace channels.  Each channel is gathered only while its
/// flag is set.
pub struct Trace {
    /// One line per contributing permission.
    pub acl: String,
    /// Whether the acl channel is on.
    pub is_acl: bool,
    /// One line per object group the evaluator visited.
    pub group: String,
    /// Whether the group channel is on.
    pub is_group: bool,
    /// Human-readable log lines.
    pub info: String,
    /// Whether the info channel is on.
    pub is_info: bool,
    /// Number of info lines written so far.
    pub str_num: u32,
}

/// Appends to the acl channel.
pub fn print_to_trace_acl(t: &mut Trace, text: String)
    ensures
        final(t).acl@ == old(t).acl@ + text@,
        final(t).group == old(t).group,
        final(t).info == old(t).info,
        final(t).str_num == old(t).str_num,
        final(t).is_acl == old(t).is_acl,
        final(t).is_group == old(t).is_group,
        final(t).is_info == old(t).is_info,
{
    t.acl.append(text.as_str());
}

/// Appends to the group channel.
pub fn print_to_trace_group(t: &mut Trace, text: String)
    ensures
        final(t).group@ == old(t).group@ + text@,
        final(t).acl == old(t).acl,
        final(t).info == old(t).info,
        final(t).str_num == old(t).str_num,
        final(t).is_acl == old(t).is_acl,
        final(t).is_group == old(t).is_group,
        final(t).is_info == old(t).is_info,
{
    t.group.append(text.as_str());
}

/// Appends a numbered line to the info channel.
pub fn print_to_trace_info(t: &mut Trace, text: String)
    ensures
        final(t).str_num == (if old(t).str_num == u32::MAX {
            u32::MAX
        } else {
            (old(t).str_num + 1) as u32
        }),
        final(t).info@ == old(t).info@ + dec_of(final(t).str_num) + " "@ + text@,
        final(t).acl == old(t).acl,
        final(t).group == old(t).group,
        final(t).is_acl == old(t).is_acl,
        final(t).is_group == old(t).is_group,
        final(t).is_info == old(t).is_info,
{
    if t.str_num < u32::MAX {
        t.str_num = t.str_num + 1;
    }
    let mut line = u32_dec_string(t.str_num);
    line.append(" ");
    line.append(text.as_str());
    t.info.append(line.as_str());
}

/// The path the destructive parent-link walk yields: every link is followed
/// and consumed until an entity without a parent is reached.
pub open spec fn path_of(m: Map<Seq<char>, String>, el: Seq<char>) -> Seq<char>
    decreases m.dom().len() when m.dom().finite()
{
    if m.contains_key(el) {
        path_of(m.remove(el), m[el]@) + "->"@ + el
    } else {
        Seq::empty()
    }
}

/// The map the destructive walk leaves behind: every visited link removed.
pub open spec fn path_trimmed(m: Map<Seq<char>, String>, el: Seq<char>) -> Map<Seq<char>, String>
    decreases m.dom().len() when m.dom().finite()
{
    if m.contains_key(el) {
        path_trimmed(m.remove(el), m[el]@)
    } else {
        m
    }
}

/// Reconstructs the path to `el` along parent links, removing each visited
/// link so that cycles in the map cannot loop.
pub fn get_path(mopc: &mut StrMap<String>, el: String) -> (r: String)
    ensures
        r@ == path_of(old(mopc)@, el@),
        final(mopc)@ == path_trimmed(old(mopc)@, el@),
    decreases mopc.spec_len(),
{
    let parent: Option<String> = match mopc.get(el.as_str()) {
        Some(p) => Some(p.clone()),
        None => None,
    };
    match parent {
        Some(p) => {
            mopc.remove(el.as_str());
            let mut prev = get_path(mopc, p);
            prev.append("->");
            prev.append(el.as_str());
            prev
        },
        None => String::new(),
    }
}

/// The pretty-printed form of a mask: one token per set bit, each followed
/// by a space, positives first.
pub open spec fn pretty_of(src: u8) -> Seq<char> {
    (if src & 1 == 1 {
        "C "@
    } else {
        Seq::<char>::empty()
    }) + (if src & 2 == 2 {
        "R "@
    } else {
        Seq::<char>::empty()
    }) + (if src & 4 == 4 {
        "U "@
    } else {
        Seq::<char>::empty()
    }) + (if src & 8 == 8 {
        "D "@
    } else {
        Seq::<char>::empty()
    }) + (if src & 16 == 16 {
        "!C "@
    } else {
        Seq::<char>::empty()
    }) + (if src & 32 == 32 {
        "!R "@
    } else {
        Seq::<char>::empty()
    }) + (if src & 64 == 64 {
        "!U "@
    } else {
        Seq::<char>::empty()
    }) + (if src & 128 == 128 {
        "!D "@
    } else {
        Seq::<char>::empty()
    })
}

/// Pretty-prints a mask.
pub fn access_to_pretty_string(src: u8) -> (r: String)
    ensures
        r@ == pretty_of(src),
{
    let mut res = String::new();
    if src & 1 == 1 {
        res.append("C ");
    }
    if src & 2 == 2 {
        res.append("R ");
    }
    if src & 4 == 4 {
        res.append("U ");
    }
    if src & 8 == 8 {
        res.append("D ");
    }
    if src & 16 == 16 {
        res.append("!C ");
    }
    if src & 32 == 32 {
        res.append("!R ");
    }
    if src & 64 == 64 {
        res.append("!U ");
    }
    if src & 128 == 128 {
        res.append("!D ");
    }
    proof {
        assert(res@ =~= pretty_of(src));
    }
    res
}

/// The predicate name of a positive access bit.
pub open spec fn spec_access_predicate(bit: u8) -> Seq<char> {
    if bit == 1 {
        "v-s:canCreate"@
    } else if bit == 2 {
        "v-s:canRead"@
    } else if bit == 4 {
        "v-s:canUpdate"@
    } else if bit == 8 {
        "v-s:canDelete"@
    } else {
        Seq::empty()
    }
}

/// The predicate name of a positive access bit; other bits have none.
pub fn access_predicate(bit: u8) -> (r: &'static str)
    ensures
        r@ == spec_access_predicate(bit),
{
    if bit == 1 {
        "v-s:canCreate"
    } else if bit == 2 {
        "v-s:canRead"
    } else if bit == 4 {
        "v-s:canUpdate"
    } else if bit == 8 {
        "v-s:canDelete"
    } else {
        proof {
            reveal_strlit("");
        }
        ""
    }
}

/// The finalization rule: an accumulated grant stands unless an exclusive
/// subject group demanded object-side evidence that was not found.
pub fn final_check(azc: &mut AzContext, t: &mut Trace) -> (r: bool)
    ensures
        r == (old(azc).is_need_exclusive_az ==> old(azc).is_found_exclusive_az),
        *final(azc) == *old(azc),
        final(t).is_acl == old(t).is_acl,
        final(t).is_group == old(t).is_group,
        final(t).is_info == old(t).is_info,
{
    let res = if azc.is_need_exclusive_az && azc.is_found_exclusive_az {
        true
    } else {
        !azc.is_need_exclusive_az
    };
    if t.is_info && res {
        let mut msg = String::from_str("result: uri=");
        msg.append(azc.id.as_str());
        msg.append(", user=");
        msg.append(azc.user_id.as_str());
        msg.append(", request=");
        let req = access_to_pretty_string(azc.request_access);
        msg.append(req.as_str());
        msg.append(", answer=");
        let ans = access_to_pretty_string(azc.calc_right_res);
        msg.append(ans.as_str());
        msg.append("\n\n");
        print_to_trace_info(t, msg);
    }
    res
}

/// Reads and decodes the filter record of an object, if any; a storage
/// failure surfaces to the caller.
pub(crate) fn get_filter<S: Storage>(id: &str, db: &mut S) -> Result<
    Option<ACLRecord>,
    StorageError,
> {
    let mut key = String::from_str(FILTER_PREFIX);
    key.append(id);
    let filter_value: String = match db.get(key.as_str()) {
        Ok(Some(data)) => data,
        Err(e) => {
            return Err(e);
        },
        Ok(None) => String::new(),
    };
    Ok(db.decode_filter(filter_value))
}

/// What the subject walk decides for one membership record.
pub enum SubjectVisit {
    /// The record was skipped: an empty id, or a group already walked
    /// under a mask at least as broad with the same marker.
    Skip,
    /// The group was entered but names the node itself: the walk neither
    /// descends nor records a closure entry.
    SelfLoop,
    /// The group was entered; the walk descends with the given
    /// ignore-exclusive flag.
    Descend {
        /// Whether exclusivity is suppressed below this group.
        ignore_exclusive: bool,
    },
}

/// Whether the subject walk skips a membership record: its id is empty, or
/// the group was already walked under a mask at least as broad with the
/// same marker.
pub open spec fn subject_visit_skipped(
    walked: Map<Seq<char>, (u8, char)>,
    gid: Seq<char>,
    new_access: u8,
    marker: char,
) -> bool {
    gid.len() == 0 || (walked.contains_key(gid) && (walked[gid].0 & new_access) == new_access
        && walked[gid].1 == marker)
}

/// One entry step of the subject walk: masks the record by the inbound
/// mask, skips records already walked at least as broadly with the same
/// marker, OR-merges the mask into `walked_groups_s` with the record's
/// marker, records the parent link when the info channel is on, and
/// decides whether the walk descends (self-loops do not).
pub fn enter_subject_group(
    ctx: &mut AzContext,
    t: &Trace,
    uri: &str,
    gid: &str,
    g_access: u8,
    g_marker: char,
    access: u8,
    ignore_exclusive: bool,
) -> (r: SubjectVisit)
    ensures
        ({
            let new_access = (g_access & access) as u8;
            let skipped = subject_visit_skipped(
                old(ctx).walked_groups_s@,
                gid@,
                new_access,
                g_marker,
            );
            &&& (r is Skip <==> skipped)
            &&& (skipped ==> *final(ctx) == *old(ctx))
            &&& (!skipped ==> final(ctx).walked_groups_s@ == old(ctx).walked_groups_s@.insert(
                gid@,
                (
                    (new_access | (if old(ctx).walked_groups_s@.contains_key(gid@) {
                        old(ctx).walked_groups_s@[gid@].0
                    } else {
                        0u8
                    })) as u8,
                    g_marker,
                ),
            ))
            &&& (!skipped && t.is_info ==> final(ctx).tree_groups_s@.contains_key(gid@)
                && final(ctx).tree_groups_s@[gid@]@ == uri@
                && final(ctx).tree_groups_s@ == old(ctx).tree_groups_s@.insert(
                    gid@,
                    final(ctx).tree_groups_s@[gid@],
                ))
            &&& (!skipped && !t.is_info ==> final(ctx).tree_groups_s == old(ctx).tree_groups_s)
            &&& (r is SelfLoop <==> !skipped && gid@ == uri@)
            &&& (r is Descend <==> !skipped && gid@ != uri@)
            &&& (r matches SubjectVisit::Descend { ignore_exclusive: ig } ==> ig == (
            ignore_exclusive || g_marker == M_IGNORE_EXCLUSIVE))
        }),
        final(ctx).calc_right_res == old(ctx).calc_right_res,
        final(ctx).is_need_exclusive_az == old(ctx).is_need_exclusive_az,
        final(ctx).is_found_exclusive_az == old(ctx).is_found_exclusive_az,
        final(ctx).walked_groups_o == old(ctx).walked_groups_o,
        final(ctx).checked_groups == old(ctx).checked_groups,
        final(ctx).subject_groups == old(ctx).subject_groups,
        final(ctx).tree_groups_o == old(ctx).tree_groups_o,
        final(ctx).filter_value == old(ctx).filter_value,
        final(ctx).id == old(ctx).id,
        final(ctx).user_id == old(ctx).user_id,
        final(ctx).request_access == old(ctx).request_access,
{
    if gid.is_empty() {
        return SubjectVisit::Skip;
    }
    let new_access = g_access & access;
    let mut preur_access: u8 = 0;
    let mut covered = false;
    match ctx.walked_groups_s.get(gid) {
        Some(p) => {
            preur_access = p.0;
            if (preur_access & new_access) == new_access && g_marker == p.1 {
                covered = true;
            }
        },
        None => {},
    }
    if covered {
        return SubjectVisit::Skip;
    }
    ctx.walked_groups_s.insert(gid.to_owned(), (new_access | preur_access, g_marker));
    if t.is_info {
        ctx.tree_groups_s.insert(gid.to_owned(), uri.to_owned());
    }
    if str_eq(uri, gid) {
        return SubjectVisit::SelfLoop;
    }
    let t_ignore_exclusive = if !ignore_exclusive && g_marker == M_IGNORE_EXCLUSIVE {
        true
    } else {
        ignore_exclusive
    };
    SubjectVisit::Descend { ignore_exclusive: t_ignore_exclusive }
}

/// The marker a closure entry keeps: an existing non-neutral marker wins
/// over the marker of the record just walked.
pub open spec fn closure_marker(
    results: Map<Seq<char>, ACLRecord>,
    gid: Seq<char>,
    g_marker: char,
) -> char {
    if results.contains_key(gid) && results[gid].marker != NO_MARKER {
        results[gid].marker
    } else {
        g_marker
    }
}

/// One closing step of the subject walk, after the descent returns:
/// outside an ignore-exclusive region an exclusive-marked group raises
/// `is_need_exclusive_az` (logging the reconstructed path when the info
/// channel is on), and the group enters the closure under the masked
/// access, keeping an earlier non-neutral marker.
pub fn record_subject_group(
    ctx: &mut AzContext,
    t: &mut Trace,
    gid: &str,
    g_marker: char,
    g_is_deleted: bool,
    new_access: u8,
    level: u8,
    ignore_exclusive: bool,
    results: &mut ACLRecordSet,
)
    ensures
        final(ctx).is_need_exclusive_az == (old(ctx).is_need_exclusive_az || (!ignore_exclusive
            && g_marker == M_IS_EXCLUSIVE)),
        final(results)@.contains_key(gid@),
        final(results)@[gid@].id@ == gid@,
        final(results)@[gid@].access == new_access,
        final(results)@[gid@].marker == closure_marker(old(results)@, gid@, g_marker),
        final(results)@[gid@].is_deleted == g_is_deleted,
        final(results)@[gid@].level == level,
        final(results)@[gid@].counters@ == Map::<char, u16>::empty(),
        final(results)@ == old(results)@.insert(gid@, final(results)@[gid@]),
        final(ctx).calc_right_res == old(ctx).calc_right_res,
        final(ctx).is_found_exclusive_az == old(ctx).is_found_exclusive_az,
        final(ctx).walked_groups_s == old(ctx).walked_groups_s,
        final(ctx).walked_groups_o == old(ctx).walked_groups_o,
        final(ctx).checked_groups == old(ctx).checked_groups,
        final(ctx).subject_groups == old(ctx).subject_groups,
        final(ctx).tree_groups_o == old(ctx).tree_groups_o,
        final(ctx).filter_value == old(ctx).filter_value,
        final(ctx).id == old(ctx).id,
        final(ctx).user_id == old(ctx).user_id,
        final(ctx).request_access == old(ctx).request_access,
        final(t).is_acl == old(t).is_acl,
        final(t).is_group == old(t).is_group,
        final(t).is_info == old(t).is_info,
{
    if !ignore_exclusive && g_marker == M_IS_EXCLUSIVE {
        if t.is_info {
            let mut msg = String::from_str("FOUND EXCLUSIVE RESTRICTIONS, PATH=");
            let p = get_path(&mut ctx.tree_groups_s, gid.to_owned());
            msg.append(p.as_str());
            msg.append(" \n");
            print_to_trace_info(t, msg);
        }
        ctx.is_need_exclusive_az = true;
    }
    let new_group_marker: char = match results.get(gid) {
        Some(val) => if val.marker == NO_MARKER {
            g_marker
        } else {
            val.marker
        },
        None => g_marker,
    };
    results.insert(
        gid.to_owned(),
        ACLRecord {
            id: gid.to_owned(),
            access: new_access,
            marker: new_group_marker,
            is_deleted: g_is_deleted,
            level,
            counters: CharMap::new(),
        },
    );
}

/// Walks the subject's group graph depth first, taking each membership
/// record through [`enter_subject_group`] and [`record_subject_group`]:
/// masks merge into `ctx.walked_groups_s`, the closure accumulates into
/// `results`, and `is_need_exclusive_az` rises when an exclusive-marked
/// group is entered outside an ignore-exclusive region.  Beyond the depth
/// cap the walk is a no-op; a decode failure surfaces as a storage error.
pub fn get_resource_groups<S: Storage>(
    ctx: &mut AzContext,
    t: &mut Trace,
    uri: &str,
    access: u8,
    results: &mut ACLRecordSet,
    level: u8,
    db: &mut S,
    ignore_exclusive: bool,
) -> (r: Result<bool, StorageError>)
    ensures
        level > 32 ==> (r matches Ok(true) && *final(ctx) == *old(ctx) && *final(results) == *old(
            results,
        ) && *final(t) == *old(t)),
        final(ctx).calc_right_res == old(ctx).calc_right_res,
        final(ctx).is_found_exclusive_az == old(ctx).is_found_exclusive_az,
        old(ctx).is_need_exclusive_az ==> final(ctx).is_need_exclusive_az,
        ignore_exclusive ==> final(ctx).is_need_exclusive_az == old(ctx).is_need_exclusive_az,
        final(ctx).walked_groups_o == old(ctx).walked_groups_o,
        final(ctx).checked_groups == old(ctx).checked_groups,
        final(ctx).subject_groups == old(ctx).subject_groups,
        final(ctx).tree_groups_o == old(ctx).tree_groups_o,
        final(ctx).filter_value == old(ctx).filter_value,
        final(ctx).id == old(ctx).id,
        final(ctx).user_id == old(ctx).user_id,
        final(ctx).request_access == old(ctx).request_access,
        old(results)@.dom().subset_of(final(results)@.dom()),
        old(ctx).walked_groups_s@.dom().subset_of(final(ctx).walked_groups_s@.dom()),
        final(t).is_acl == old(t).is_acl,
        final(t).is_group == old(t).is_group,
        final(t).is_info == old(t).is_info,
    decreases 33int - level,
{
    if level > 32 {
        return Ok(true);
    }
    let mut key = String::from_str(MEMBERSHIP_PREFIX);
    key.append(uri);
    let got = db.get(key.as_str());
    match got {
        Ok(Some(groups_str)) => {
            let mut groups_set: Vec<ACLRecord> = Vec::new();
            if !db.decode_rec_to_rights(groups_str.as_str(), &mut groups_set) {
                return Err(
                    StorageError {
                        message: String::from_str("membership record decode failed"),
                    },
                );
            }
            let n = groups_set.len();
            let mut idx: usize = 0;
            while idx < n
                invariant
                    n == groups_set@.len(),
                    idx <= n,
                    level <= 32,
                    ctx.calc_right_res == old(ctx).calc_right_res,
                    ctx.is_found_exclusive_az == old(ctx).is_found_exclusive_az,
                    old(ctx).is_need_exclusive_az ==> ctx.is_need_exclusive_az,
                    ignore_exclusive ==> ctx.is_need_exclusive_az == old(ctx).is_need_exclusive_az,
                    ctx.walked_groups_o == old(ctx).walked_groups_o,
                    ctx.checked_groups == old(ctx).checked_groups,
                    ctx.subject_groups == old(ctx).subject_groups,
                    ctx.tree_groups_o == old(ctx).tree_groups_o,
                    ctx.filter_value == old(ctx).filter_value,
                    ctx.id == old(ctx).id,
                    ctx.user_id == old(ctx).user_id,
                    ctx.request_access == old(ctx).request_access,
                    old(results)@.dom().subset_of(results@.dom()),
                    old(ctx).walked_groups_s@.dom().subset_of(ctx.walked_groups_s@.dom()),
                    t.is_acl == old(t).is_acl,
                    t.is_group == old(t).is_group,
                    t.is_info == old(t).is_info,
                decreases n - idx,
            {
                let gid = groups_set[idx].id.clone();
                let g_access = groups_set[idx].access;
                let g_marker = groups_set[idx].marker;
                let g_is_deleted = groups_set[idx].is_deleted;
                let new_access = g_access & access;
                let step = enter_subject_group(ctx, t, uri, gid.as_str(), g_access, g_marker,
                    access, ignore_exclusive);
                match step {
                    SubjectVisit::Skip => {},
                    SubjectVisit::SelfLoop => {},
                    SubjectVisit::Descend { ignore_exclusive: t_ignore_exclusive } => {
                        db.fiber_yield();
                        get_resource_groups(ctx, t, gid.as_str(), 15, results, level + 1, db,
                            t_ignore_exclusive)?;
                        record_subject_group(ctx, t, gid.as_str(), g_marker, g_is_deleted,
                            new_access, level, ignore_exclusive, results);
                    },
                }
                idx = idx + 1;
            }
            Ok(false)
        },
        Err(e) => Err(e),
        Ok(None) => Ok(false),
    }
}

} // verus!
