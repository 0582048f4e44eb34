//! The object-side traversal: walks the object's group graph depth first,
//! evaluating permissions at every group and tracking the evidence the
//! exclusive-restriction rule needs.

use vstd::prelude::*;
use vstd::string::*;
use crate::{ACLRecord, AzContext};
use crate::access::{lemma_grant_chain, lemma_self_window, satisfied};
use crate::authorize_obj_group::authorize_obj_group;
use crate::common::{Storage, StorageError, Trace, MEMBERSHIP_PREFIX, M_IS_EXCLUSIVE};
use crate::strutil::{contains_sub, str_contains, str_eq};

verus! {

/// How one membership record advances the suffix-seen flag of the
/// exclusive-evidence scan: at the top level, while evidence is still
/// demanded and missing, a group id containing `"_group"` marks the flag.
pub open spec fn suffix_seen_step(
    need: bool,
    found: bool,
    level: u8,
    seen: bool,
    gid: Seq<char>,
) -> bool {
    seen || (need && !found && level == 0 && contains_sub(gid, "_group"@))
}

/// How one membership record advances the exclusive-evidence flag, while
/// evidence is demanded and missing: at the top level, the last record
/// raises it when no `"_group"` id was seen, and an id containing
/// `"cfg:TTLResourcesGroup"` raises it; at the top level or under a parent
/// whose id contains `"_group"`, a group standing in the subject closure
/// with an exclusive marker raises it.
pub open spec fn evidence_step(
    need: bool,
    found: bool,
    level: u8,
    idx: int,
    groups_len: int,
    seen_after: bool,
    gid: Seq<char>,
    uri: Seq<char>,
    subjects: Map<Seq<char>, ACLRecord>,
) -> bool {
    let f1 = found || (need && !found && level == 0 && idx == groups_len - 1 && !seen_after);
    let f2 = f1 || (need && !found && level == 0 && contains_sub(gid, "cfg:TTLResourcesGroup"@));
    let f3 = f2 || (need && !found && !f2 && (level == 0 || contains_sub(uri, "_group"@))
        && subjects.contains_key(gid) && subjects[gid].marker == M_IS_EXCLUSIVE);
    f3
}

/// One evidence step of the object walk, applied to a membership record
/// before anything else happens to it; exact per [`suffix_seen_step`] and
/// [`evidence_step`].
pub fn update_exclusive_evidence(
    azc: &mut AzContext,
    gid: &str,
    uri: &str,
    level: u8,
    idx: usize,
    groups_len: usize,
    is_contain_suffix_group: &mut bool,
)
    requires
        idx < groups_len,
    ensures
        *final(is_contain_suffix_group) == suffix_seen_step(
            old(azc).is_need_exclusive_az,
            old(azc).is_found_exclusive_az,
            level,
            *old(is_contain_suffix_group),
            gid@,
        ),
        final(azc).is_found_exclusive_az == evidence_step(
            old(azc).is_need_exclusive_az,
            old(azc).is_found_exclusive_az,
            level,
            idx as int,
            groups_len as int,
            *final(is_contain_suffix_group),
            gid@,
            uri@,
            old(azc).subject_groups@,
        ),
        final(azc).calc_right_res == old(azc).calc_right_res,
        final(azc).is_need_exclusive_az == old(azc).is_need_exclusive_az,
        final(azc).walked_groups_s == old(azc).walked_groups_s,
        final(azc).tree_groups_s == old(azc).tree_groups_s,
        final(azc).walked_groups_o == old(azc).walked_groups_o,
        final(azc).tree_groups_o == old(azc).tree_groups_o,
        final(azc).checked_groups == old(azc).checked_groups,
        final(azc).subject_groups == old(azc).subject_groups,
        final(azc).filter_value == old(azc).filter_value,
        final(azc).id == old(azc).id,
        final(azc).user_id == old(azc).user_id,
        final(azc).request_access == old(azc).request_access,
{
    if azc.is_need_exclusive_az && !azc.is_found_exclusive_az {
        if level == 0 {
            if str_contains(gid, "_group") {
                *is_contain_suffix_group = true;
            }
            if idx == groups_len - 1 && !*is_contain_suffix_group {
                azc.is_found_exclusive_az = true;
            }
            if str_contains(gid, "cfg:TTLResourcesGroup") {
                azc.is_found_exclusive_az = true;
            }
        }
        if !azc.is_found_exclusive_az && (level == 0 || str_contains(uri, "_group")) {
            match azc.subject_groups.get(gid) {
                Some(s_val) => {
                    if s_val.marker == M_IS_EXCLUSIVE {
                        azc.is_found_exclusive_az = true;
                    }
                },
                None => {},
            }
        }
    }
}

/// Marks that the object side offers nothing further to restrict by: the
/// walk found no membership groups here, which counts as exclusive
/// evidence.
pub fn mark_no_restriction_evidence(azc: &mut AzContext)
    ensures
        final(azc).is_found_exclusive_az,
        final(azc).calc_right_res == old(azc).calc_right_res,
        final(azc).is_need_exclusive_az == old(azc).is_need_exclusive_az,
        final(azc).walked_groups_s == old(azc).walked_groups_s,
        final(azc).tree_groups_s == old(azc).tree_groups_s,
        final(azc).walked_groups_o == old(azc).walked_groups_o,
        final(azc).tree_groups_o == old(azc).tree_groups_o,
        final(azc).checked_groups == old(azc).checked_groups,
        final(azc).subject_groups == old(azc).subject_groups,
        final(azc).filter_value == old(azc).filter_value,
        final(azc).id == old(azc).id,
        final(azc).user_id == old(azc).user_id,
        final(azc).request_access == old(azc).request_access,
{
    azc.is_found_exclusive_az = true;
}

/// Whether the object walk already covered a group under a mask at least
/// as broad.
pub open spec fn object_walk_covered(
    walked: Map<Seq<char>, u8>,
    gid: Seq<char>,
    new_access: u8,
) -> bool {
    walked.contains_key(gid) && (walked[gid] & new_access) == new_access
}

/// One memo step of the object walk: skips groups already walked at least
/// as broadly, otherwise OR-merges the mask into `walked_groups_o` and,
/// when the info channel is on, records the parent link.
pub fn merge_walked_object_group(
    azc: &mut AzContext,
    t: &Trace,
    gid: &str,
    uri: &str,
    new_access: u8,
) -> (skip: bool)
    ensures
        skip == object_walk_covered(old(azc).walked_groups_o@, gid@, new_access),
        skip ==> *final(azc) == *old(azc),
        !skip ==> final(azc).walked_groups_o@ == old(azc).walked_groups_o@.insert(
            gid@,
            (new_access | (if old(azc).walked_groups_o@.contains_key(gid@) {
                old(azc).walked_groups_o@[gid@]
            } else {
                0u8
            })) as u8,
        ),
        !skip && t.is_info ==> final(azc).tree_groups_o@.contains_key(gid@)
            && final(azc).tree_groups_o@[gid@]@ == uri@
            && final(azc).tree_groups_o@ == old(azc).tree_groups_o@.insert(
                gid@,
                final(azc).tree_groups_o@[gid@],
            ),
        !skip && !t.is_info ==> final(azc).tree_groups_o == old(azc).tree_groups_o,
        final(azc).calc_right_res == old(azc).calc_right_res,
        final(azc).is_need_exclusive_az == old(azc).is_need_exclusive_az,
        final(azc).is_found_exclusive_az == old(azc).is_found_exclusive_az,
        final(azc).walked_groups_s == old(azc).walked_groups_s,
        final(azc).tree_groups_s == old(azc).tree_groups_s,
        final(azc).checked_groups == old(azc).checked_groups,
        final(azc).subject_groups == old(azc).subject_groups,
        final(azc).filter_value == old(azc).filter_value,
        final(azc).id == old(azc).id,
        final(azc).user_id == old(azc).user_id,
        final(azc).request_access == old(azc).request_access,
{
    let mut preur_access: u8 = 0;
    let mut covered = false;
    match azc.walked_groups_o.get(gid) {
        Some(p) => {
            preur_access = *p;
            if (preur_access & new_access) == new_access {
                covered = true;
            }
        },
        None => {},
    }
    if covered {
        return true;
    }
    if t.is_info {
        azc.walked_groups_o.insert(gid.to_owned(), new_access | preur_access);
        azc.tree_groups_o.insert(gid.to_owned(), uri.to_owned());
    } else {
        azc.walked_groups_o.insert(gid.to_owned(), new_access | preur_access);
    }
    false
}

/// Walks the object's group graph from `uri`, invoking the evaluator at
/// each group.
///
/// The accumulated grant only grows and never leaves the window
/// `old grant | request`.  A `true` result means the request was fully
/// granted and, where an exclusive restriction was demanded, its
/// object-side evidence was found.  Exclusive evidence, once found, is
/// never retracted.  The depth cap makes cyclic membership data safe.
pub fn prepare_obj_group<S: Storage>(
    azc: &mut AzContext,
    t: &mut Trace,
    request_access: u8,
    uri: &str,
    access: u8,
    level: u8,
    db: &mut S,
) -> (r: Result<bool, StorageError>)
    ensures
        level > 32 ==> (r matches Ok(false) && *final(azc) == *old(azc) && *final(t) == *old(t)),
        old(azc).calc_right_res & final(azc).calc_right_res == old(azc).calc_right_res,
        final(azc).calc_right_res & (old(azc).calc_right_res | request_access) == final(azc).calc_right_res,
        r matches Ok(true) ==> satisfied(request_access, final(azc).calc_right_res) && (final(azc).is_need_exclusive_az ==> final(azc).is_found_exclusive_az),
        final(azc).is_need_exclusive_az == old(azc).is_need_exclusive_az,
        old(azc).is_found_exclusive_az ==> final(azc).is_found_exclusive_az,
        final(azc).subject_groups == old(azc).subject_groups,
        final(azc).walked_groups_s == old(azc).walked_groups_s,
        final(azc).filter_value == old(azc).filter_value,
        final(azc).id == old(azc).id,
        final(azc).user_id == old(azc).user_id,
        final(azc).request_access == old(azc).request_access,
        final(t).is_acl == old(t).is_acl,
        final(t).is_group == old(t).is_group,
        final(t).is_info == old(t).is_info,
    decreases 33int - level,
{
    proof {
        lemma_self_window(old(azc).calc_right_res, request_access);
    }
    if level > 32 {
        return Ok(false);
    }
    db.fiber_yield();
    let mut is_contain_suffix_group = false;
    let mut key = String::from_str(MEMBERSHIP_PREFIX);
    key.append(uri);
    let got = db.get(key.as_str());
    match got {
        Ok(Some(groups_str)) => {
            let mut groups_set: Vec<ACLRecord> = Vec::new();
            if !db.decode_rec_to_rights(groups_str.as_str(), &mut groups_set) {
                return Err(
                    StorageError {
                        message: String::from_str("membership record decode failed"),
                    },
                );
            }
            let groups_set_len = groups_set.len();
            let mut idx: usize = 0;
            while idx < groups_set_len
                invariant
                    groups_set_len == groups_set@.len(),
                    idx <= groups_set_len,
                    level <= 32,
                    old(azc).calc_right_res & azc.calc_right_res == old(azc).calc_right_res,
                    azc.calc_right_res & (old(azc).calc_right_res | request_access)
                        == azc.calc_right_res,
                    azc.is_need_exclusive_az == old(azc).is_need_exclusive_az,
                    old(azc).is_found_exclusive_az ==> azc.is_found_exclusive_az,
                    azc.subject_groups == old(azc).subject_groups,
                    azc.walked_groups_s == old(azc).walked_groups_s,
                    azc.filter_value == old(azc).filter_value,
                    azc.id == old(azc).id,
                    azc.user_id == old(azc).user_id,
                    azc.request_access == old(azc).request_access,
                    t.is_acl == old(t).is_acl,
                    t.is_group == old(t).is_group,
                    t.is_info == old(t).is_info,
                decreases groups_set_len - idx,
            {
                let gid = groups_set[idx].id.clone();
                let g_access_raw = groups_set[idx].access;
                let g_marker = groups_set[idx].marker;
                if gid.as_str().is_empty() {
                    idx = idx + 1;
                    continue;
                }
                let new_access = g_access_raw & access;
                update_exclusive_evidence(azc, gid.as_str(), uri, level, idx, groups_set_len,
                    &mut is_contain_suffix_group);
                if g_marker == M_IS_EXCLUSIVE {
                    idx = idx + 1;
                    continue;
                }
                if merge_walked_object_group(azc, t, gid.as_str(), uri, new_access) {
                    idx = idx + 1;
                    continue;
                }
                if str_eq(uri, gid.as_str()) {
                    idx = idx + 1;
                    continue;
                }
                let ghost c_before = azc.calc_right_res;
                let res = match authorize_obj_group(azc, t, request_access, gid.as_str(),
                    new_access, db) {
                    Ok(res) => {
                        proof {
                            lemma_grant_chain(
                                old(azc).calc_right_res,
                                c_before,
                                azc.calc_right_res,
                                request_access,
                            );
                        }
                        res
                    },
                    Err(e) => {
                        proof {
                            lemma_grant_chain(
                                old(azc).calc_right_res,
                                c_before,
                                azc.calc_right_res,
                                request_access,
                            );
                        }
                        return Err(e);
                    },
                };
                if res {
                    if !azc.is_need_exclusive_az {
                        return Ok(true);
                    }
                    if azc.is_need_exclusive_az && azc.is_found_exclusive_az {
                        return Ok(true);
                    }
                }
                let ghost c_mid = azc.calc_right_res;
                match prepare_obj_group(azc, t, request_access, gid.as_str(), new_access,
                    level + 1, db) {
                    Ok(_) => {
                        proof {
                            lemma_grant_chain(
                                old(azc).calc_right_res,
                                c_mid,
                                azc.calc_right_res,
                                request_access,
                            );
                        }
                    },
                    Err(e) => {
                        proof {
                            lemma_grant_chain(
                                old(azc).calc_right_res,
                                c_mid,
                                azc.calc_right_res,
                                request_access,
                            );
                        }
                        return Err(e);
                    },
                }
                idx = idx + 1;
            }
            if groups_set_len == 0 {
                mark_no_restriction_evidence(azc);
            }
            Ok(false)
        },
        Err(e) => Err(e),
        Ok(None) => {
            if level == 0 {
                mark_no_restriction_evidence(azc);
            }
            Ok(false)
        },
    }
}

} // verus!
