//! The object-group evaluator: joins the permission records of one object
//! group against the subject closure and accumulates granted bits.

use vstd::prelude::*;
use vstd::string::*;
use crate::{ACLRecord, AzContext};
use crate::access::{
    access_8_item, effective_mask, fold_denials, lemma_effective_mask_positive, remaining_mask,
    satisfied, spec_access_8_item,
};
use crate::common::{
    access_predicate, access_to_pretty_string, get_path, print_to_trace_acl, print_to_trace_group,
    print_to_trace_info, Storage, StorageError, Trace, PERMISSION_PREFIX,
};

verus! {

/// The bits one permission record grants: nothing unless its subject lies
/// in the closure; otherwise the requested bits that the object-side mask,
/// the subject-side mask and the denial-folded permission mask all allow.
pub open spec fn record_bits(
    p: ACLRecord,
    request: u8,
    object_access: u8,
    subjects: Map<Seq<char>, ACLRecord>,
) -> u8 {
    if subjects.contains_key(p.id@) {
        request & object_access & subjects[p.id@].access & effective_mask(p.access)
    } else {
        0
    }
}

/// The bits a permission list grants: the union of its records' bits.
pub open spec fn granted_bits(
    perms: Seq<ACLRecord>,
    request: u8,
    object_access: u8,
    subjects: Map<Seq<char>, ACLRecord>,
) -> u8
    decreases perms.len(),
{
    if perms.len() == 0 {
        0
    } else {
        record_bits(perms[0], request, object_access, subjects) | granted_bits(
            perms.drop_first(),
            request,
            object_access,
            subjects,
        )
    }
}

/// Every granted bit was requested.
pub proof fn lemma_granted_bits_in_request(
    perms: Seq<ACLRecord>,
    request: u8,
    object_access: u8,
    subjects: Map<Seq<char>, ACLRecord>,
)
    ensures
        granted_bits(perms, request, object_access, subjects) & request == granted_bits(
            perms,
            request,
            object_access,
            subjects,
        ),
    decreases perms.len(),
{
    if perms.len() == 0 {
        assert(0u8 & request == 0) by (bit_vector);
    } else {
        lemma_granted_bits_in_request(perms.drop_first(), request, object_access, subjects);
        let h = record_bits(perms[0], request, object_access, subjects);
        let rest = granted_bits(perms.drop_first(), request, object_access, subjects);
        assert(h & request == h) by {
            if subjects.contains_key(perms[0].id@) {
                let s = subjects[perms[0].id@].access;
                let e = effective_mask(perms[0].access);
                assert((request & object_access & s & e) & request == (request & object_access & s
                    & e)) by (bit_vector);
            } else {
                assert(0u8 & request == 0) by (bit_vector);
            }
        }
        assert((h & request == h && rest & request == rest) ==> (h | rest) & request == (h | rest))
            by (bit_vector);
    }
}

/// Appending a record folds its bits into the union.
pub proof fn lemma_granted_bits_push(
    perms: Seq<ACLRecord>,
    p: ACLRecord,
    request: u8,
    object_access: u8,
    subjects: Map<Seq<char>, ACLRecord>,
)
    ensures
        granted_bits(perms.push(p), request, object_access, subjects) == granted_bits(
            perms,
            request,
            object_access,
            subjects,
        ) | record_bits(p, request, object_access, subjects),
    decreases perms.len(),
{
    let rb = record_bits(p, request, object_access, subjects);
    if perms.len() == 0 {
        assert(perms.push(p)[0] == p);
        assert(perms.push(p).drop_first() =~= Seq::<ACLRecord>::empty());
        assert(granted_bits(perms.push(p).drop_first(), request, object_access, subjects) == 0);
        assert(granted_bits(perms.push(p), request, object_access, subjects) == rb | 0);
        assert(granted_bits(perms, request, object_access, subjects) == 0);
        assert(rb | 0 == 0 | rb) by (bit_vector);
    } else {
        assert(perms.push(p)[0] == perms[0]);
        assert(perms.push(p).drop_first() =~= perms.drop_first().push(p));
        lemma_granted_bits_push(perms.drop_first(), p, request, object_access, subjects);
        let h = record_bits(perms[0], request, object_access, subjects);
        let rest = granted_bits(perms.drop_first(), request, object_access, subjects);
        assert(h | (rest | rb) == (h | rest) | rb) by (bit_vector);
    }
}

/// The union splits at any index into a prefix part and a suffix part.
pub proof fn lemma_granted_bits_split(
    perms: Seq<ACLRecord>,
    i: int,
    request: u8,
    object_access: u8,
    subjects: Map<Seq<char>, ACLRecord>,
)
    requires
        0 <= i <= perms.len(),
    ensures
        granted_bits(perms, request, object_access, subjects) == granted_bits(
            perms.take(i),
            request,
            object_access,
            subjects,
        ) | granted_bits(perms.skip(i), request, object_access, subjects),
    decreases i,
{
    if i == 0 {
        assert(perms.take(0) =~= Seq::<ACLRecord>::empty());
        assert(perms.skip(0) =~= perms);
        let g = granted_bits(perms, request, object_access, subjects);
        assert(g == 0 | g) by (bit_vector);
    } else {
        lemma_granted_bits_split(perms, i - 1, request, object_access, subjects);
        let x = record_bits(perms[i - 1], request, object_access, subjects);
        assert(perms.skip(i - 1)[0] == perms[i - 1]);
        assert(perms.skip(i - 1).drop_first() =~= perms.skip(i));
        assert(perms.take(i) =~= perms.take(i - 1).push(perms[i - 1]));
        lemma_granted_bits_push(perms.take(i - 1), perms[i - 1], request, object_access, subjects);
        let a = granted_bits(perms.take(i - 1), request, object_access, subjects);
        let b = granted_bits(perms.skip(i), request, object_access, subjects);
        assert(a | (x | b) == (a | x) | b) by (bit_vector);
    }
}

/// Monotonicity in permissions at the evaluator: a permission list extended
/// by one record never grants fewer bits, so removing a record never grants
/// more.
pub proof fn lemma_granted_bits_monotone(
    perms: Seq<ACLRecord>,
    p: ACLRecord,
    request: u8,
    object_access: u8,
    subjects: Map<Seq<char>, ACLRecord>,
)
    ensures
        granted_bits(perms, request, object_access, subjects) & granted_bits(
            perms.push(p),
            request,
            object_access,
            subjects,
        ) == granted_bits(perms, request, object_access, subjects),
{
    lemma_granted_bits_push(perms, p, request, object_access, subjects);
    let g = granted_bits(perms, request, object_access, subjects);
    let rb = record_bits(p, request, object_access, subjects);
    assert(g & (g | rb) == g) by (bit_vector);
}

/// The low-nibble bits covered by the first `i` steps of the canonical
/// enumeration.
spec fn low_mask(i: int) -> u8 {
    if i <= 0 {
        0
    } else if i == 1 {
        1
    } else if i == 2 {
        3
    } else if i == 3 {
        7
    } else {
        15
    }
}

/// Folds one decoded permission list into the accumulated grant.
///
/// This is the evaluator's core, verified for every record list the port's
/// decoder may hand back: the new grant is exactly the old one joined with
/// [`granted_bits`] of the list.  The call reports `true` only when it
/// stopped early because the whole request was covered while no trace
/// channel demanded a full walk.
pub fn apply_permissions(
    azc: &mut AzContext,
    t: &mut Trace,
    request_access: u8,
    object_group_id: &str,
    object_group_access: u8,
    permissions: &Vec<ACLRecord>,
) -> (r: bool)
    ensures
        final(azc).calc_right_res == old(azc).calc_right_res | granted_bits(
            permissions@,
            request_access,
            object_group_access,
            old(azc).subject_groups@,
        ),
        r ==> satisfied(request_access, final(azc).calc_right_res),
        r ==> !old(t).is_info && !old(t).is_group && !old(t).is_acl,
        (!old(t).is_info && !old(t).is_group && !old(t).is_acl && !satisfied(
            request_access,
            old(azc).calc_right_res,
        )) ==> (r <==> satisfied(request_access, final(azc).calc_right_res)),
        final(azc).is_need_exclusive_az == old(azc).is_need_exclusive_az,
        final(azc).is_found_exclusive_az == old(azc).is_found_exclusive_az,
        final(azc).subject_groups == old(azc).subject_groups,
        final(azc).walked_groups_s == old(azc).walked_groups_s,
        final(azc).walked_groups_o == old(azc).walked_groups_o,
        final(azc).checked_groups == old(azc).checked_groups,
        final(azc).filter_value == old(azc).filter_value,
        final(azc).id == old(azc).id,
        final(azc).user_id == old(azc).user_id,
        final(azc).request_access == old(azc).request_access,
        final(t).is_acl == old(t).is_acl,
        final(t).is_group == old(t).is_group,
        final(t).is_info == old(t).is_info,
{
    let ghost subjects = old(azc).subject_groups@;
    let np = permissions.len();
    let mut pi: usize = 0;
    proof {
        assert(permissions@.take(0) =~= Seq::<ACLRecord>::empty());
        let oc = old(azc).calc_right_res;
        assert(oc | 0 == oc) by (bit_vector);
    }
    while pi < np
        invariant
            np == permissions@.len(),
            pi <= np,
            azc.calc_right_res == old(azc).calc_right_res | granted_bits(
                permissions@.take(pi as int),
                request_access,
                object_group_access,
                subjects,
            ),
            azc.subject_groups@ == subjects,
            (!old(t).is_info && !old(t).is_group && !old(t).is_acl && !satisfied(
                request_access,
                old(azc).calc_right_res,
            )) ==> !satisfied(request_access, azc.calc_right_res),
            azc.is_need_exclusive_az == old(azc).is_need_exclusive_az,
            azc.is_found_exclusive_az == old(azc).is_found_exclusive_az,
            azc.subject_groups == old(azc).subject_groups,
            azc.walked_groups_s == old(azc).walked_groups_s,
            azc.walked_groups_o == old(azc).walked_groups_o,
            azc.checked_groups == old(azc).checked_groups,
            azc.filter_value == old(azc).filter_value,
            azc.id == old(azc).id,
            azc.user_id == old(azc).user_id,
            azc.request_access == old(azc).request_access,
            t.is_acl == old(t).is_acl,
            t.is_group == old(t).is_group,
            t.is_info == old(t).is_info,
        decreases np - pi,
    {
        let subj_id = permissions[pi].id.clone();
        let p_access = permissions[pi].access;
        let subj_found: bool;
        let subj_restriction_access: u8;
        match azc.subject_groups.get(subj_id.as_str()) {
            Some(subj_gr) => {
                subj_found = true;
                subj_restriction_access = subj_gr.access;
            },
            None => {
                subj_found = false;
                subj_restriction_access = 0;
            },
        }
        let ghost x = record_bits(
            permissions@[pi as int],
            request_access,
            object_group_access,
            subjects,
        );
        let ghost calc_rec = azc.calc_right_res;
        if subj_found {
            let obj_restriction_access = object_group_access;
            let permission_access = fold_denials(p_access);
            proof {
                assert(x == request_access & object_group_access & subj_restriction_access
                    & permission_access);
                let cr = calc_rec;
                let xx = x;
                assert(cr | (xx & 0) == cr) by (bit_vector);
            }
            let mut ai: usize = 0;
            while ai < 4
                invariant
                    ai <= 4,
                    obj_restriction_access == object_group_access,
                    x == request_access & object_group_access & subj_restriction_access
                        & permission_access,
                    permission_access == effective_mask(permissions@[pi as int].access),
                    pi < np,
                    np == permissions@.len(),
                    x == record_bits(
                        permissions@[pi as int],
                        request_access,
                        object_group_access,
                        subjects,
                    ),
                    calc_rec == old(azc).calc_right_res | granted_bits(
                        permissions@.take(pi as int),
                        request_access,
                        object_group_access,
                        subjects,
                    ),
                    azc.calc_right_res == calc_rec | (x & low_mask(ai as int)),
                    (!old(t).is_info && !old(t).is_group && !old(t).is_acl && !satisfied(
                        request_access,
                        old(azc).calc_right_res,
                    )) ==> !satisfied(request_access, azc.calc_right_res),
                    azc.subject_groups@ == subjects,
                    azc.is_need_exclusive_az == old(azc).is_need_exclusive_az,
                    azc.is_found_exclusive_az == old(azc).is_found_exclusive_az,
                    azc.subject_groups == old(azc).subject_groups,
                    azc.walked_groups_s == old(azc).walked_groups_s,
                    azc.walked_groups_o == old(azc).walked_groups_o,
                    azc.checked_groups == old(azc).checked_groups,
                    azc.filter_value == old(azc).filter_value,
                    azc.id == old(azc).id,
                    azc.user_id == old(azc).user_id,
                    azc.request_access == old(azc).request_access,
                    t.is_acl == old(t).is_acl,
                    t.is_group == old(t).is_group,
                    t.is_info == old(t).is_info,
                decreases 4 - ai,
            {
                proof {
                    let c = azc.calc_right_res;
                    let cr = calc_rec;
                    let xx = x;
                    let b = spec_access_8_item(ai as int);
                    let pe = permission_access;
                    let req = request_access;
                    let oa = obj_restriction_access;
                    let sa = subj_restriction_access;
                    if ai == 0 {
                        assert((c == cr | (xx & 0) && xx == req & oa & sa & pe) ==> {
                            &&& ((req & b & oa & sa != 0 && (b & pe) > 0) ==> c | (b & pe) == cr
                                | (xx & 1))
                            &&& (!(req & b & oa & sa != 0 && (b & pe) > 0) ==> c == cr | (xx & 1))
                        }) by (bit_vector)
                            requires
                                b == 1,
                        ;
                    } else if ai == 1 {
                        assert((c == cr | (xx & 1) && xx == req & oa & sa & pe) ==> {
                            &&& ((req & b & oa & sa != 0 && (b & pe) > 0) ==> c | (b & pe) == cr
                                | (xx & 3))
                            &&& (!(req & b & oa & sa != 0 && (b & pe) > 0) ==> c == cr | (xx & 3))
                        }) by (bit_vector)
                            requires
                                b == 2,
                        ;
                    } else if ai == 2 {
                        assert((c == cr | (xx & 3) && xx == req & oa & sa & pe) ==> {
                            &&& ((req & b & oa & sa != 0 && (b & pe) > 0) ==> c | (b & pe) == cr
                                | (xx & 7))
                            &&& (!(req & b & oa & sa != 0 && (b & pe) > 0) ==> c == cr | (xx & 7))
                        }) by (bit_vector)
                            requires
                                b == 4,
                        ;
                    } else {
                        assert((c == cr | (xx & 7) && xx == req & oa & sa & pe) ==> {
                            &&& ((req & b & oa & sa != 0 && (b & pe) > 0) ==> c | (b & pe) == cr
                                | (xx & 15))
                            &&& (!(req & b & oa & sa != 0 && (b & pe) > 0) ==> c == cr | (xx
                                & 15))
                        }) by (bit_vector)
                            requires
                                b == 8,
                        ;
                    }
                }
                let access = access_8_item(ai);
                if request_access & access & obj_restriction_access & subj_restriction_access
                    != 0 {
                    let calc_bits = access & permission_access;
                    if calc_bits > 0 {
                        let prev_res = azc.calc_right_res;
                        azc.calc_right_res = azc.calc_right_res | calc_bits;
                        if azc.calc_right_res & request_access == request_access {
                            if t.is_info {
                                // keep walking: the info channel wants every node
                            } else if !t.is_group && !t.is_acl {
                                proof {
                                    lemma_early_stop(
                                        permissions@,
                                        pi as int,
                                        ai as int + 1,
                                        old(azc).calc_right_res,
                                        azc.calc_right_res,
                                        request_access,
                                        object_group_access,
                                        subjects,
                                    );
                                }
                                return true;
                            }
                        }
                        if t.is_info && prev_res != azc.calc_right_res {
                            let f_log_str = if !azc.filter_value.as_str().is_empty() {
                                let mut f = String::from_str(", with filter ");
                                f.append(azc.filter_value.as_str());
                                f
                            } else {
                                String::new()
                            };
                            let mut msg = String::from_str("found permission S:[");
                            msg.append(subj_id.as_str());
                            msg.append("], O:[");
                            msg.append(object_group_id);
                            msg.append("], access=");
                            let pa = access_to_pretty_string(permission_access);
                            msg.append(pa.as_str());
                            msg.append(" ");
                            msg.append(f_log_str.as_str());
                            msg.append("\n");
                            print_to_trace_info(t, msg);
                            let mut msg2 = String::from_str("access: request=");
                            let pr = access_to_pretty_string(request_access);
                            msg2.append(pr.as_str());
                            msg2.append(", calc=");
                            let pc = access_to_pretty_string(calc_bits);
                            msg2.append(pc.as_str());
                            msg2.append(", total=");
                            let ptot = access_to_pretty_string(azc.calc_right_res);
                            msg2.append(ptot.as_str());
                            msg2.append("\n");
                            print_to_trace_info(t, msg2);
                            let mut msg3 = String::from_str("O-PATH");
                            let po = get_path(&mut azc.tree_groups_o, object_group_id.to_owned());
                            msg3.append(po.as_str());
                            msg3.append("\n");
                            print_to_trace_info(t, msg3);
                            let mut msg4 = String::from_str("S-PATH");
                            let ps = get_path(&mut azc.tree_groups_s, subj_id.clone());
                            msg4.append(ps.as_str());
                            msg4.append("\n");
                            print_to_trace_info(t, msg4);
                        }
                        if t.is_acl {
                            let mut line = String::from_str(object_group_id);
                            line.append(";");
                            line.append(subj_id.as_str());
                            line.append(";");
                            line.append(access_predicate(access));
                            line.append("\n");
                            print_to_trace_acl(t, line);
                        }
                    }
                }
                ai = ai + 1;
            }
        }
        proof {
            assert(permissions@.take(pi + 1) =~= permissions@.take(pi as int).push(
                permissions@[pi as int],
            ));
            lemma_granted_bits_push(
                permissions@.take(pi as int),
                permissions@[pi as int],
                request_access,
                object_group_access,
                subjects,
            );
            let oc = old(azc).calc_right_res;
            let g1 = granted_bits(
                permissions@.take(pi as int),
                request_access,
                object_group_access,
                subjects,
            );
            if subj_found {
                lemma_effective_mask_positive(permissions@[pi as int].access);
                let c = azc.calc_right_res;
                let e = effective_mask(permissions@[pi as int].access);
                let xx = x;
                assert((e <= 15 && xx & e == xx && c == (oc | g1) | (xx & 15)) ==> c == oc | (g1
                    | xx)) by (bit_vector);
                assert(x & e == x) by {
                    let req = request_access;
                    let oa = object_group_access;
                    let sa = subjects[permissions@[pi as int].id@].access;
                    assert((req & oa & sa & e) & e == (req & oa & sa & e)) by (bit_vector);
                }
            } else {
                assert(!subjects.contains_key(permissions@[pi as int].id@));
                let c = azc.calc_right_res;
                assert(c == (oc | g1) ==> c == oc | (g1 | 0)) by (bit_vector);
            }
        }
        pi = pi + 1;
    }
    proof {
        assert(permissions@.take(np as int) =~= permissions@);
    }
    false
}

/// Once the request is covered, the bits still to be folded in change
/// nothing: the accumulated grant already equals the grant of the whole
/// list.
proof fn lemma_early_stop(
    perms: Seq<ACLRecord>,
    pi: int,
    covered_bits: int,
    oc: u8,
    c: u8,
    request: u8,
    object_access: u8,
    subjects: Map<Seq<char>, ACLRecord>,
)
    requires
        0 <= pi < perms.len(),
        satisfied(request, c),
        c == (oc | granted_bits(perms.take(pi), request, object_access, subjects)) | (record_bits(
            perms[pi],
            request,
            object_access,
            subjects,
        ) & low_mask(covered_bits)),
    ensures
        c == oc | granted_bits(perms, request, object_access, subjects),
{
    lemma_granted_bits_split(perms, pi, request, object_access, subjects);
    assert(perms.skip(pi)[0] == perms[pi]);
    assert(perms.skip(pi).drop_first() =~= perms.skip(pi + 1));
    lemma_granted_bits_in_request(perms.skip(pi + 1), request, object_access, subjects);
    let g1 = granted_bits(perms.take(pi), request, object_access, subjects);
    let g2 = granted_bits(perms.skip(pi + 1), request, object_access, subjects);
    let x = record_bits(perms[pi], request, object_access, subjects);
    let m = low_mask(covered_bits);
    assert(x & request == x) by {
        if subjects.contains_key(perms[pi].id@) {
            let sa = subjects[perms[pi].id@].access;
            let e = effective_mask(perms[pi].access);
            assert((request & object_access & sa & e) & request == (request & object_access & sa
                & e)) by (bit_vector);
        } else {
            assert(0u8 & request == 0) by (bit_vector);
        }
    }
    assert((c & request == request && x & request == x && g2 & request == g2 && c == (oc | g1) | (x
        & m)) ==> c == oc | (g1 | (x | g2))) by (bit_vector);
}

/// Evaluates the permission records stored under one object group.
///
/// When no trace channel is on and no requested bit is outstanding here, or
/// the group was already evaluated under this mask, the evaluator returns
/// at once and changes nothing.  Otherwise it reads `P<group>` (with the
/// active filter prefix, if any), folds the decoded records in through
/// [`apply_permissions`], and reports `true` exactly when the whole request
/// is covered while no trace channel is on.  The accumulated grant only
/// grows, and it never leaves the window `old grant | request`.
pub fn authorize_obj_group<S: Storage>(
    azc: &mut AzContext,
    t: &mut Trace,
    request_access: u8,
    object_group_id: &str,
    object_group_access: u8,
    db: &mut S,
) -> (r: Result<bool, StorageError>)
    ensures
        old(azc).calc_right_res & final(azc).calc_right_res == old(azc).calc_right_res,
        final(azc).calc_right_res & (old(azc).calc_right_res | request_access) == final(azc).calc_right_res,
        r matches Ok(true) ==> satisfied(request_access, final(azc).calc_right_res),
        (old(t).is_info || old(t).is_group || old(t).is_acl) ==> !(r matches Ok(true)),
        r matches Err(_) ==> final(azc).calc_right_res == old(azc).calc_right_res,
        (!old(t).is_info && !old(t).is_group && !old(t).is_acl && remaining_mask(
            request_access,
            old(azc).calc_right_res,
        ) & object_group_access == 0) ==> (r matches Ok(false) && *final(azc) == *old(azc)),
        (!old(t).is_info && !old(t).is_group && !old(t).is_acl
            && old(azc).checked_groups@.contains_key(object_group_id@)
            && old(azc).checked_groups@[object_group_id@] == object_group_access) ==> (r matches
        Ok(false) && *final(azc) == *old(azc)),
        (!old(t).is_info && !old(t).is_group && !old(t).is_acl && remaining_mask(
            request_access,
            old(azc).calc_right_res,
        ) & object_group_access != 0) ==> final(azc).checked_groups@ == old(
            azc,
        ).checked_groups@.insert(object_group_id@, object_group_access),
        (!old(t).is_info && !old(t).is_group && !old(t).is_acl && !satisfied(
            request_access,
            old(azc).calc_right_res,
        ) && r matches Ok(_)) ==> ((r matches Ok(true)) <==> satisfied(
            request_access,
            final(azc).calc_right_res,
        )),
        final(azc).is_need_exclusive_az == old(azc).is_need_exclusive_az,
        final(azc).is_found_exclusive_az == old(azc).is_found_exclusive_az,
        final(azc).subject_groups == old(azc).subject_groups,
        final(azc).walked_groups_s == old(azc).walked_groups_s,
        final(azc).walked_groups_o == old(azc).walked_groups_o,
        final(azc).filter_value == old(azc).filter_value,
        final(azc).id == old(azc).id,
        final(azc).user_id == old(azc).user_id,
        final(azc).request_access == old(azc).request_access,
        final(t).is_acl == old(t).is_acl,
        final(t).is_group == old(t).is_group,
        final(t).is_info == old(t).is_info,
{
    proof {
        let c = old(azc).calc_right_res;
        let req = request_access;
        assert(c & c == c && c & (c | req) == c) by (bit_vector);
    }
    if !t.is_info && !t.is_group && !t.is_acl {
        let left_to_check = (azc.calc_right_res ^ request_access) & request_access;
        if left_to_check & object_group_access == 0 {
            return Ok(false);
        }
        let mut already_checked = false;
        match azc.checked_groups.get(object_group_id) {
            Some(v) => {
                if *v == object_group_access {
                    already_checked = true;
                }
            },
            None => {},
        }
        if already_checked {
            proof {
                assert(azc.checked_groups@ =~= azc.checked_groups@.insert(
                    object_group_id@,
                    object_group_access,
                ));
            }
            return Ok(false);
        }
        azc.checked_groups.insert(object_group_id.to_owned(), object_group_access);
    }
    db.fiber_yield();
    if t.is_group {
        let mut line = String::from_str(object_group_id);
        line.append("\n");
        print_to_trace_group(t, line);
    }
    let acl_key = if !azc.filter_value.as_str().is_empty() {
        let mut k = String::from_str(PERMISSION_PREFIX);
        k.append(azc.filter_value.as_str());
        k.append(object_group_id);
        k
    } else {
        let mut k = String::from_str(PERMISSION_PREFIX);
        k.append(object_group_id);
        k
    };
    let got = db.get(acl_key.as_str());
    match got {
        Ok(Some(data)) => {
            let mut permissions: Vec<ACLRecord> = Vec::new();
            if !db.decode_rec_to_rights(data.as_str(), &mut permissions) {
                return Err(StorageError { message: String::from_str("permission record decode failed") });
            }
            let ghost c_mid = azc.calc_right_res;
            let authorized = apply_permissions(
                azc,
                t,
                request_access,
                object_group_id,
                object_group_access,
                &permissions,
            );
            proof {
                lemma_granted_bits_in_request(
                    permissions@,
                    request_access,
                    object_group_access,
                    azc.subject_groups@,
                );
                let oc = old(azc).calc_right_res;
                let cm = c_mid;
                let g = granted_bits(
                    permissions@,
                    request_access,
                    object_group_access,
                    azc.subject_groups@,
                );
                let req = request_access;
                assert((oc & cm == oc && cm & (oc | req) == cm && g & req == g) ==> (oc & (cm | g)
                    == oc && (cm | g) & (oc | req) == (cm | g))) by (bit_vector);
            }
            if authorized {
                return Ok(true);
            }
        },
        Err(e) => {
            return Err(e);
        },
        Ok(None) => {},
    }
    if azc.calc_right_res & request_access == request_access {
        if !t.is_info && !t.is_group && !t.is_acl {
            return Ok(true);
        }
    }
    Ok(false)
}

} // verus!
