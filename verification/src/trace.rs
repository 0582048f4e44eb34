//! A structured trace tree: nested steps with accumulated rights and found
//! groups, rendered to JSON at the end.
//!
//! The tree is a rose tree of [`TraceNode`]s with a cursor (`current_path`)
//! naming the step being gathered.  Every mutation is an edit applied at the
//! cursor; the contracts state those edits exactly through the relation
//! [`edited_at`].

use vstd::prelude::*;
use vstd::string::*;
use crate::jsonval::{
    json_array, json_bool, json_map_insert, json_map_new, json_null, json_object, json_string,
    json_to_string_pretty,
};
use crate::strmap::{StrMap, StrSet};

verus! {

/// The rights bit rendered as "Read".
pub const READ_BIT: u8 = 1;

/// The rights bit rendered as "Write".
pub const WRITE_BIT: u8 = 2;

/// The rights bit rendered as "Execute".
pub const EXECUTE_BIT: u8 = 4;

/// How much the tree gathers.
#[derive(Clone, Copy, PartialEq, Eq, Structural, Debug)]
pub enum TraceMode {
    /// Gather nothing.
    Disabled,
    /// Gather steps, groups, permissions and notes.
    Enabled,
    /// Like `Enabled`, for callers that want the fullest record.
    Detailed,
}

/// One node of the trace tree.
pub enum TraceNode {
    /// A named phase with children and running totals.
    Step {
        /// The phase name.
        name: String,
        /// Free-form details recorded when the step began.
        details: StrMap<String>,
        /// Nodes gathered while the step was current.
        children: Vec<TraceNode>,
        /// Rights accumulated in this step and its finished children.
        accumulated_rights: u8,
        /// Group ids found in this step and its finished children.
        found_group_ids: StrSet,
    },
    /// A group visit.
    Group {
        /// The group id.
        id: String,
        /// The mask the group was visited under.
        access: u8,
        /// The group's marker.
        marker: char,
        /// Whether the group lies on the subject side.
        is_subject: bool,
    },
    /// A contributing permission.
    Permission {
        /// The subject the permission names.
        subject: String,
        /// The object group it applies to.
        object: String,
        /// The bits it contributed.
        access: u8,
    },
    /// A free-form note.
    Info(String),
}

/// The name of a step node; empty for other nodes.
pub open spec fn node_name(n: TraceNode) -> Seq<char> {
    match n {
        TraceNode::Step { name, .. } => name@,
        _ => Seq::empty(),
    }
}

/// The details of a step node.
pub open spec fn node_details(n: TraceNode) -> Map<Seq<char>, String> {
    match n {
        TraceNode::Step { details, .. } => details@,
        _ => Map::empty(),
    }
}

/// The children of a step node; other nodes have none.
pub open spec fn node_children(n: TraceNode) -> Seq<TraceNode> {
    match n {
        TraceNode::Step { children, .. } => children@,
        _ => Seq::empty(),
    }
}

/// The accumulated rights of a step node; zero for other nodes.
pub open spec fn node_rights(n: TraceNode) -> u8 {
    match n {
        TraceNode::Step { accumulated_rights, .. } => accumulated_rights,
        _ => 0,
    }
}

/// The found groups of a step node; empty for other nodes.
pub open spec fn node_groups(n: TraceNode) -> Set<Seq<char>> {
    match n {
        TraceNode::Step { found_group_ids, .. } => found_group_ids@,
        _ => Set::empty(),
    }
}

/// The node a child-index path leads to, if the path is valid.
pub open spec fn node_at(n: TraceNode, path: Seq<usize>) -> Option<TraceNode>
    decreases path.len(),
{
    if path.len() == 0 {
        Some(n)
    } else if n is Step && (path[0] as int) < node_children(n).len() {
        node_at(node_children(n)[path[0] as int], path.drop_first())
    } else {
        None
    }
}

/// One edit applied to a step node, stated at the specification level.
pub enum EditView {
    /// Append a child node.
    AddChild(TraceNode),
    /// Fold bits into the accumulated rights.
    OrRights(u8),
    /// Add one id to the found groups.
    AddGroup(Seq<char>),
    /// Fold a finished child's rights and groups into the step.
    Merge(u8, Set<Seq<char>>),
}

/// How an edit turns one step node into another; nodes that are not steps
/// are left unchanged.
pub open spec fn step_edited(a: TraceNode, b: TraceNode, e: EditView) -> bool {
    if a is Step {
        &&& b is Step
        &&& node_name(b) == node_name(a)
        &&& node_details(b) == node_details(a)
        &&& match e {
            EditView::AddChild(c) => node_children(b) == node_children(a).push(c) && node_rights(b)
                == node_rights(a) && node_groups(b) == node_groups(a),
            EditView::OrRights(r) => node_children(b) == node_children(a) && node_rights(b) == (
            node_rights(a) | r) && node_groups(b) == node_groups(a),
            EditView::AddGroup(g) => node_children(b) == node_children(a) && node_rights(b)
                == node_rights(a) && node_groups(b) == node_groups(a).insert(g),
            EditView::Merge(r, s) => node_children(b) == node_children(a) && node_rights(b) == (
            node_rights(a) | r) && node_groups(b) == node_groups(a) + s,
        }
    } else {
        b == a
    }
}

/// How an edit at the end of a path turns one tree into another: everything
/// off the path is unchanged, and the target node is edited.  An invalid
/// path edits nothing.
pub open spec fn edited_at(a: TraceNode, b: TraceNode, path: Seq<usize>, e: EditView) -> bool
    decreases path.len(),
{
    if path.len() == 0 {
        step_edited(a, b, e)
    } else if a is Step && (path[0] as int) < node_children(a).len() {
        &&& b is Step
        &&& node_name(b) == node_name(a)
        &&& node_details(b) == node_details(a)
        &&& node_rights(b) == node_rights(a)
        &&& node_groups(b) == node_groups(a)
        &&& node_children(b).len() == node_children(a).len()
        &&& forall|j: int| 0 <= j < node_children(a).len() && j != path[0] ==> node_children(b)[j]
            == node_children(a)[j]
        &&& edited_at(
            node_children(a)[path[0] as int],
            node_children(b)[path[0] as int],
            path.drop_first(),
            e,
        )
    } else {
        b == a
    }
}

/// An edit at a valid path edits exactly the node the path leads to.
pub proof fn lemma_edited_at_node(a: TraceNode, b: TraceNode, path: Seq<usize>, e: EditView)
    requires
        edited_at(a, b, path, e),
        node_at(a, path) is Some,
    ensures
        node_at(b, path) is Some,
        step_edited(node_at(a, path).unwrap(), node_at(b, path).unwrap(), e),
    decreases path.len(),
{
    if path.len() == 0 {
        if !(a is Step) {
            assert(b == a);
        }
    } else {
        lemma_edited_at_node(
            node_children(a)[path[0] as int],
            node_children(b)[path[0] as int],
            path.drop_first(),
            e,
        );
    }
}

fn apply_step_edit(n: &mut TraceNode, e: StepEdit)
    ensures
        step_edited(*old(n), *final(n), edit_view(e)),
{
    match n {
        TraceNode::Step { children, accumulated_rights, found_group_ids, .. } => {
            match e {
                StepEdit::AddChild(c) => {
                    children.push(c);
                },
                StepEdit::OrRights(r) => {
                    *accumulated_rights = *accumulated_rights | r;
                },
                StepEdit::AddGroup(g) => {
                    found_group_ids.insert(g);
                },
                StepEdit::Merge(r, s) => {
                    *accumulated_rights = *accumulated_rights | r;
                    found_group_ids.union_from(&s);
                },
            }
        },
        _ => {},
    }
}

/// One edit applied to a step node, carried by the executable editor.
pub enum StepEdit {
    /// Append a child node.
    AddChild(TraceNode),
    /// Fold bits into the accumulated rights.
    OrRights(u8),
    /// Add one id to the found groups.
    AddGroup(String),
    /// Fold a finished child's rights and groups into the step.
    Merge(u8, StrSet),
}

/// The specification-level meaning of an executable edit.
pub open spec fn edit_view(e: StepEdit) -> EditView {
    match e {
        StepEdit::AddChild(c) => EditView::AddChild(c),
        StepEdit::OrRights(r) => EditView::OrRights(r),
        StepEdit::AddGroup(g) => EditView::AddGroup(g@),
        StepEdit::Merge(r, s) => EditView::Merge(r, s@),
    }
}

fn edit_node_at(n: &mut TraceNode, path: &Vec<usize>, i: usize, e: StepEdit)
    requires
        i <= path@.len(),
    ensures
        edited_at(*old(n), *final(n), path@.skip(i as int), edit_view(e)),
    decreases path@.len() - i,
{
    if i == path.len() {
        apply_step_edit(n, e);
        proof {
            assert(path@.skip(i as int).len() == 0);
        }
    } else {
        let idx = path[i];
        proof {
            assert(path@.skip(i as int)[0] == path@[i as int]);
        }
        match n {
            TraceNode::Step { children, .. } => {
                if idx < children.len() {
                    let ghost cs0 = children@;
                    let mut child = children.remove(idx);
                    edit_node_at(&mut child, path, i + 1, e);
                    children.insert(idx, child);
                    proof {
                        assert(children@ =~= cs0.update(idx as int, children@[idx as int]));
                        assert(path@.skip(i as int).drop_first() =~= path@.skip(i + 1));
                    }
                }
            },
            _ => {},
        }
    }
}

fn node_ref_at<'a>(n: &'a TraceNode, path: &Vec<usize>, i: usize) -> (r: Option<&'a TraceNode>)
    requires
        i <= path@.len(),
    ensures
        match r {
            Some(m) => node_at(*n, path@.skip(i as int)) == Some(*m),
            None => node_at(*n, path@.skip(i as int)) is None,
        },
    decreases path@.len() - i,
{
    if i == path.len() {
        proof {
            assert(path@.skip(i as int).len() == 0);
        }
        Some(n)
    } else {
        proof {
            assert(path@.skip(i as int)[0] == path@[i as int]);
        }
        match n {
            TraceNode::Step { children, .. } => {
                let idx = path[i];
                if idx < children.len() {
                    let r = node_ref_at(&children[idx], path, i + 1);
                    proof {
                        assert(path@.skip(i as int).drop_first() =~= path@.skip(i + 1));
                    }
                    r
                } else {
                    None
                }
            },
            _ => None,
        }
    }
}

/// The trace tree and a cursor to the step being gathered.
pub struct TraceInfo {
    /// The root step, absent when disabled.
    pub root: Option<TraceNode>,
    /// Child indices from the root to the current step.
    pub current_path: Vec<usize>,
    /// How much is gathered.
    pub mode: TraceMode,
    /// The object of the traced call, once supplied.
    pub id: Option<String>,
    /// The subject of the traced call, once supplied.
    pub user_id: Option<String>,
    /// The request of the traced call, once supplied.
    pub request_access: Option<u8>,
}

/// The node the cursor points at.
pub open spec fn spec_current_node(ti: TraceInfo) -> Option<TraceNode> {
    match ti.root {
        Some(root) => node_at(root, ti.current_path@),
        None => None,
    }
}

/// Whether the cursor points at a step node.
pub open spec fn current_is_step(ti: TraceInfo) -> bool {
    spec_current_node(ti) matches Some(n) && n is Step
}

/// The accumulated rights at the cursor; zero when the cursor is not on a
/// step.
pub open spec fn current_rights(ti: TraceInfo) -> u8 {
    match spec_current_node(ti) {
        Some(n) => node_rights(n),
        None => 0,
    }
}

/// The found groups at the cursor; empty when the cursor is not on a step.
pub open spec fn current_groups(ti: TraceInfo) -> Set<Seq<char>> {
    match spec_current_node(ti) {
        Some(n) => node_groups(n),
        None => Set::empty(),
    }
}

/// The child count at the cursor; zero when the cursor is not on a step.
pub open spec fn current_children_len(ti: TraceInfo) -> nat {
    match spec_current_node(ti) {
        Some(n) => node_children(n).len(),
        None => 0,
    }
}

/// How one edit at `path` turns one tree into another; a missing root is
/// left unchanged.
pub open spec fn root_edited(a: TraceInfo, b: TraceInfo, path: Seq<usize>, e: EditView) -> bool {
    match a.root {
        Some(ra) => b.root matches Some(rb) && edited_at(ra, rb, path, e),
        None => b.root == a.root,
    }
}

/// How two edits in sequence at `path` turn one tree into another.
pub open spec fn root_edited2(
    a: TraceInfo,
    b: TraceInfo,
    path: Seq<usize>,
    e1: EditView,
    e2: EditView,
) -> bool {
    match a.root {
        Some(ra) => b.root matches Some(rb) && exists|m: TraceNode|
            #[trigger] edited_at(ra, m, path, e1) && edited_at(m, rb, path, e2),
        None => b.root == a.root,
    }
}

/// How three edits in sequence at `path` turn one tree into another.
pub open spec fn root_edited3(
    a: TraceInfo,
    b: TraceInfo,
    path: Seq<usize>,
    e1: EditView,
    e2: EditView,
    e3: EditView,
) -> bool {
    match a.root {
        Some(ra) => b.root matches Some(rb) && exists|m1: TraceNode, m2: TraceNode|
            #[trigger] edited_at(ra, m1, path, e1) && #[trigger] edited_at(m1, m2, path, e2)
                && edited_at(m2, rb, path, e3),
        None => b.root == a.root,
    }
}

/// A freshly started step: named, detailed, childless, seeded with the
/// surrounding step's totals.
pub open spec fn is_fresh_step(
    c: TraceNode,
    name: Seq<char>,
    details: StrMap<String>,
    rights: u8,
    groups: Set<Seq<char>>,
) -> bool {
    &&& c is Step
    &&& node_name(c) == name
    &&& node_details(c) == details@
    &&& node_children(c).len() == 0
    &&& node_rights(c) == rights
    &&& node_groups(c) == groups
}

/// A group node with the given fields.
pub open spec fn is_group_node(
    c: TraceNode,
    id: Seq<char>,
    access: u8,
    marker: char,
    is_subject: bool,
) -> bool {
    match c {
        TraceNode::Group { id: cid, access: ca, marker: cm, is_subject: cs } => cid@ == id && ca
            == access && cm == marker && cs == is_subject,
        _ => false,
    }
}

/// A permission node with the given fields.
pub open spec fn is_permission_node(
    c: TraceNode,
    subject: Seq<char>,
    object: Seq<char>,
    access: u8,
) -> bool {
    match c {
        TraceNode::Permission { subject: cs, object: co, access: ca } => cs@ == subject && co@
            == object && ca == access,
        _ => false,
    }
}

/// A note node with the given text.
pub open spec fn is_info_node(c: TraceNode, text: Seq<char>) -> bool {
    match c {
        TraceNode::Info(s) => s@ == text,
        _ => false,
    }
}

/// The cursor, mode and call details are unchanged.
pub open spec fn same_frame(a: TraceInfo, b: TraceInfo) -> bool {
    &&& b.current_path == a.current_path
    &&& b.mode == a.mode
    &&& b.id == a.id
    &&& b.user_id == a.user_id
    &&& b.request_access == a.request_access
}

impl TraceInfo {
    /// An empty tree: a bare `authorize` root step unless disabled.
    pub fn new(mode: TraceMode) -> (r: Self)
        ensures
            r.mode == mode,
            r.current_path@ == Seq::<usize>::empty(),
            r.id is None,
            r.user_id is None,
            r.request_access is None,
            mode == TraceMode::Disabled ==> r.root is None,
            mode != TraceMode::Disabled ==> (r.root matches Some(root) && root is Step
                && node_name(root) == "authorize"@ && node_children(root).len() == 0
                && node_rights(root) == 0 && node_groups(root) == Set::<Seq<char>>::empty()
                && node_details(root) == Map::<Seq<char>, String>::empty()),
    {
        match mode {
            TraceMode::Disabled => TraceInfo {
                root: None,
                current_path: Vec::new(),
                mode,
                id: None,
                user_id: None,
                request_access: None,
            },
            _ => TraceInfo {
                root: Some(
                    TraceNode::Step {
                        name: String::from_str("authorize"),
                        details: StrMap::new(),
                        children: Vec::new(),
                        accumulated_rights: 0,
                        found_group_ids: StrSet::new(),
                    },
                ),
                current_path: Vec::new(),
                mode,
                id: None,
                user_id: None,
                request_access: None,
            },
        }
    }

    /// Records which call the trace is about; ignored when disabled.
    pub fn with_details(self, id: &str, user_id: &str, request_access: u8) -> (r: Self)
        ensures
            r.root == self.root,
            r.current_path == self.current_path,
            r.mode == self.mode,
            self.mode == TraceMode::Disabled ==> r.id == self.id && r.user_id == self.user_id
                && r.request_access == self.request_access,
            self.mode != TraceMode::Disabled ==> ((r.id matches Some(i) && i@ == id@) && (
            r.user_id matches Some(u) && u@ == user_id@) && r.request_access == Some(
                request_access,
            )),
    {
        let mut s = self;
        if !matches!(s.mode, TraceMode::Disabled) {
            s.id = Some(id.to_owned());
            s.user_id = Some(user_id.to_owned());
            s.request_access = Some(request_access);
        }
        s
    }

    /// The node the cursor points at.
    pub fn get_current_node(&self) -> (r: Option<&TraceNode>)
        ensures
            match r {
                Some(n) => spec_current_node(*self) == Some(*n),
                None => spec_current_node(*self) is None,
            },
    {
        match &self.root {
            Some(root) => {
                let r = node_ref_at(root, &self.current_path, 0);
                proof {
                    assert(self.current_path@.skip(0) =~= self.current_path@);
                }
                r
            },
            None => None,
        }
    }

    /// The running totals at the cursor.
    pub fn get_current_state(&self) -> (r: (u8, StrSet))
        ensures
            r.0 == current_rights(*self),
            current_is_step(*self) ==> r.1@ == current_groups(*self),
            !current_is_step(*self) ==> r.1@ == Set::<Seq<char>>::empty(),
    {
        match self.get_current_node() {
            Some(n) => match n {
                TraceNode::Step { accumulated_rights, found_group_ids, .. } => (
                    *accumulated_rights,
                    found_group_ids.duplicate(),
                ),
                _ => (0, StrSet::new()),
            },
            None => (0, StrSet::new()),
        }
    }

    /// The child count at the cursor.
    pub fn get_current_children_len(&self) -> (r: usize)
        ensures
            r == current_children_len(*self),
    {
        match self.get_current_node() {
            Some(n) => match n {
                TraceNode::Step { children, .. } => children.len(),
                _ => 0,
            },
            None => 0,
        }
    }

    /// Applies one edit at the cursor.
    fn edit_current(&mut self, e: StepEdit)
        ensures
            root_edited(*old(self), *final(self), old(self).current_path@, edit_view(e)),
            same_frame(*old(self), *final(self)),
    {
        let mut root: Option<TraceNode> = None;
        core::mem::swap(&mut root, &mut self.root);
        match root {
            Some(mut r) => {
                edit_node_at(&mut r, &self.current_path, 0, e);
                proof {
                    assert(self.current_path@.skip(0) =~= self.current_path@);
                }
                self.root = Some(r);
            },
            None => {
                self.root = None;
            },
        }
    }

    /// Appends a node under the current step.
    pub fn add_node(&mut self, node: TraceNode)
        ensures
            root_edited(
                *old(self),
                *final(self),
                old(self).current_path@,
                EditView::AddChild(node),
            ),
            same_frame(*old(self), *final(self)),
    {
        self.edit_current(StepEdit::AddChild(node));
    }

    /// Opens a nested step seeded with the current step's totals and moves
    /// the cursor into it.
    pub fn start_step(&mut self, name: &str, details: StrMap<String>)
        requires
            old(self).mode != TraceMode::Disabled ==> current_is_step(*old(self)),
        ensures
            old(self).mode == TraceMode::Disabled ==> *final(self) == *old(self),
            old(self).mode != TraceMode::Disabled ==> {
                &&& exists|c: TraceNode|
                    #[trigger] is_fresh_step(
                        c,
                        name@,
                        details,
                        current_rights(*old(self)),
                        current_groups(*old(self)),
                    ) && root_edited(
                        *old(self),
                        *final(self),
                        old(self).current_path@,
                        EditView::AddChild(c),
                    )
                &&& final(self).current_path@ == old(self).current_path@.push(
                    current_children_len(*old(self)) as usize,
                )
                &&& final(self).mode == old(self).mode
                &&& final(self).id == old(self).id
                &&& final(self).user_id == old(self).user_id
                &&& final(self).request_access == old(self).request_access
            },
    {
        if matches!(self.mode, TraceMode::Disabled) {
            return;
        }
        let ghost details0 = details;
        let (parent_rights, parent_groups) = self.get_current_state();
        let new_step = TraceNode::Step {
            name: name.to_owned(),
            details,
            children: Vec::new(),
            accumulated_rights: parent_rights,
            found_group_ids: parent_groups,
        };
        let ghost snode = new_step;
        let ghost before = *self;
        self.add_node(new_step);
        proof {
            assert(is_fresh_step(
                snode,
                name@,
                details0,
                current_rights(before),
                current_groups(before),
            ));
            let ra = before.root.unwrap();
            let rb = self.root.unwrap();
            lemma_edited_at_node(ra, rb, before.current_path@, EditView::AddChild(snode));
        }
        let new_index = self.get_current_children_len() - 1;
        self.current_path.push(new_index);
    }

    /// Closes the current step, folding its totals into its parent, and
    /// moves the cursor back out.
    pub fn end_step(&mut self)
        ensures
            old(self).mode == TraceMode::Disabled ==> *final(self) == *old(self),
            old(self).mode != TraceMode::Disabled && old(self).current_path@.len() == 0 ==> *final(self) == *old(self),
            old(self).mode != TraceMode::Disabled && old(self).current_path@.len() > 0 ==> {
                &&& root_edited(
                    *old(self),
                    *final(self),
                    old(self).current_path@.drop_last(),
                    EditView::Merge(current_rights(*old(self)), current_groups(*old(self))),
                )
                &&& final(self).current_path@ == old(self).current_path@.drop_last()
                &&& final(self).mode == old(self).mode
                &&& final(self).id == old(self).id
                &&& final(self).user_id == old(self).user_id
                &&& final(self).request_access == old(self).request_access
            },
    {
        if matches!(self.mode, TraceMode::Disabled) {
            return;
        }
        if self.current_path.len() != 0 {
            let (current_rights_now, current_groups_now) = self.get_current_state();
            let _popped = self.current_path.pop();
            proof {
                assert(self.current_path@ =~= old(self).current_path@.drop_last());
            }
            self.edit_current(StepEdit::Merge(current_rights_now, current_groups_now));
        }
    }

    /// Folds rights into the current step.
    pub fn update_step_rights(&mut self, new_rights: u8)
        ensures
            old(self).mode == TraceMode::Disabled ==> *final(self) == *old(self),
            old(self).mode != TraceMode::Disabled ==> root_edited(
                *old(self),
                *final(self),
                old(self).current_path@,
                EditView::OrRights(new_rights),
            ) && same_frame(*old(self), *final(self)),
    {
        if matches!(self.mode, TraceMode::Disabled) {
            return;
        }
        self.edit_current(StepEdit::OrRights(new_rights));
    }

    /// Adds a group id to the current step's found set.
    pub fn add_found_group(&mut self, group_id: &str)
        ensures
            old(self).mode == TraceMode::Disabled ==> *final(self) == *old(self),
            old(self).mode != TraceMode::Disabled ==> root_edited(
                *old(self),
                *final(self),
                old(self).current_path@,
                EditView::AddGroup(group_id@),
            ) && same_frame(*old(self), *final(self)),
    {
        if matches!(self.mode, TraceMode::Disabled) {
            return;
        }
        self.edit_current(StepEdit::AddGroup(group_id.to_owned()));
    }

    /// Records a visited group; object-side groups also count as found.
    pub fn add_group(&mut self, id: &str, access: u8, marker: char, is_subject: bool)
        ensures
            old(self).mode == TraceMode::Disabled ==> *final(self) == *old(self),
            old(self).mode != TraceMode::Disabled && is_subject ==> (exists|c: TraceNode|
                #[trigger] is_group_node(c, id@, access, marker, is_subject) && root_edited(
                    *old(self),
                    *final(self),
                    old(self).current_path@,
                    EditView::AddChild(c),
                )) && same_frame(*old(self), *final(self)),
            old(self).mode != TraceMode::Disabled && !is_subject ==> (exists|c: TraceNode|
                #[trigger] is_group_node(c, id@, access, marker, is_subject) && root_edited2(
                    *old(self),
                    *final(self),
                    old(self).current_path@,
                    EditView::AddChild(c),
                    EditView::AddGroup(id@),
                )) && same_frame(*old(self), *final(self)),
    {
        if matches!(self.mode, TraceMode::Disabled) {
            return;
        }
        let group = TraceNode::Group {
            id: id.to_owned(),
            access,
            marker,
            is_subject,
        };
        let ghost gnode = group;
        self.add_node(group);
        proof {
            assert(is_group_node(gnode, id@, access, marker, is_subject));
        }
        if !is_subject {
            let ghost mid = *self;
            self.add_found_group(id);
            proof {
                if old(self).root is Some {
                    let ra = old(self).root.unwrap();
                    let rm = mid.root.unwrap();
                    let rb = self.root.unwrap();
                    assert(edited_at(ra, rm, old(self).current_path@, EditView::AddChild(gnode)));
                    assert(edited_at(rm, rb, old(self).current_path@, EditView::AddGroup(id@)));
                }
            }
        }
    }

    /// Records a contributing permission: the node is appended, its bits
    /// fold into the step, and its subject counts as found.
    pub fn add_permission(&mut self, subject: &str, object: &str, access: u8)
        ensures
            old(self).mode == TraceMode::Disabled ==> *final(self) == *old(self),
            old(self).mode != TraceMode::Disabled ==> (exists|c: TraceNode|
                #[trigger] is_permission_node(c, subject@, object@, access) && root_edited3(
                    *old(self),
                    *final(self),
                    old(self).current_path@,
                    EditView::AddChild(c),
                    EditView::OrRights(access),
                    EditView::AddGroup(subject@),
                )) && same_frame(*old(self), *final(self)),
    {
        if matches!(self.mode, TraceMode::Disabled) {
            return;
        }
        let permission = TraceNode::Permission {
            subject: subject.to_owned(),
            object: object.to_owned(),
            access,
        };
        let ghost pnode = permission;
        self.add_node(permission);
        let ghost mid1 = *self;
        self.update_step_rights(access);
        let ghost mid2 = *self;
        self.add_found_group(subject);
        proof {
            assert(is_permission_node(pnode, subject@, object@, access));
            if old(self).root is Some {
                let ra = old(self).root.unwrap();
                let rm1 = mid1.root.unwrap();
                let rm2 = mid2.root.unwrap();
                let rb = self.root.unwrap();
                assert(edited_at(ra, rm1, old(self).current_path@, EditView::AddChild(pnode)));
                assert(edited_at(rm1, rm2, old(self).current_path@, EditView::OrRights(access)));
                assert(edited_at(rm2, rb, old(self).current_path@, EditView::AddGroup(subject@)));
            }
        }
    }

    /// Records a free-form note.
    pub fn add_info(&mut self, info: &str)
        ensures
            old(self).mode == TraceMode::Disabled ==> *final(self) == *old(self),
            old(self).mode != TraceMode::Disabled ==> (exists|c: TraceNode|
                #[trigger] is_info_node(c, info@) && root_edited(
                    *old(self),
                    *final(self),
                    old(self).current_path@,
                    EditView::AddChild(c),
                )) && same_frame(*old(self), *final(self)),
    {
        if matches!(self.mode, TraceMode::Disabled) {
            return;
        }
        let info_node = TraceNode::Info(info.to_owned());
        let ghost inode = info_node;
        self.add_node(info_node);
        proof {
            assert(is_info_node(inode, info@));
        }
    }

    /// The words a rights mask renders to.
    pub fn rights_to_string(&self, rights: u8) -> (r: Vec<String>)
        ensures
            r@.len() == spec_rights_words(rights).len(),
            forall|j: int| 0 <= j < r@.len() ==> r@[j]@ == spec_rights_words(rights)[j],
    {
        let mut rights_str: Vec<String> = Vec::new();
        if rights & READ_BIT != 0 {
            rights_str.push(String::from_str("Read"));
        }
        if rights & WRITE_BIT != 0 {
            rights_str.push(String::from_str("Write"));
        }
        if rights & EXECUTE_BIT != 0 {
            rights_str.push(String::from_str("Execute"));
        }
        if rights_str.len() == 0 {
            rights_str.push(String::from_str("No Rights"));
        }
        rights_str
    }

    fn rights_to_json(&self, rights: u8) -> serde_json::Value {
        let words = self.rights_to_string(rights);
        let mut items: Vec<serde_json::Value> = Vec::new();
        let n = words.len();
        let mut i: usize = 0;
        while i < n
            invariant
                n == words@.len(),
                i <= n,
            decreases n - i,
        {
            items.push(json_string(words[i].clone()));
            i = i + 1;
        }
        json_array(items)
    }

    fn node_to_json(&self, node: &TraceNode) -> serde_json::Value
        decreases *node,
    {
        match node {
            TraceNode::Step { name, details, children, accumulated_rights, found_group_ids } => {
                let mut m = json_map_new();
                json_map_insert(&mut m, String::from_str("type"), json_string(
                    String::from_str("step"),
                ));
                json_map_insert(&mut m, String::from_str("name"), json_string(name.clone()));
                let mut dm = json_map_new();
                let dn = details.len();
                let mut di: usize = 0;
                while di < dn
                    invariant
                        dn == details@.dom().len(),
                        di <= dn,
                    decreases dn - di,
                {
                    let entry = details.entry_at(di);
                    json_map_insert(&mut dm, entry.0.clone(), json_string(entry.1.clone()));
                    di = di + 1;
                }
                json_map_insert(&mut m, String::from_str("details"), json_object(dm));
                json_map_insert(
                    &mut m,
                    String::from_str("accumulated_rights"),
                    self.rights_to_json(*accumulated_rights),
                );
                let mut groups: Vec<serde_json::Value> = Vec::new();
                let gn = found_group_ids.len();
                let mut gi: usize = 0;
                while gi < gn
                    invariant
                        gn == found_group_ids@.len(),
                        gi <= gn,
                    decreases gn - gi,
                {
                    groups.push(json_string(found_group_ids.item_at(gi).clone()));
                    gi = gi + 1;
                }
                json_map_insert(&mut m, String::from_str("found_group_ids"), json_array(groups));
                let mut kids: Vec<serde_json::Value> = Vec::new();
                let cn = children.len();
                let mut ci: usize = 0;
                while ci < cn
                    invariant
                        cn == children@.len(),
                        ci <= cn,
                        node is Step && node->Step_children == *children,
                    decreases cn - ci,
                {
                    proof {
                        broadcast use vstd::std_specs::vec::group_vec_axioms;

                        assert(decreases_to!(*node => node->Step_children));
                        assert(decreases_to!(*children => children[ci as int]));
                    }
                    let child_json = self.node_to_json(&children[ci]);
                    kids.push(child_json);
                    ci = ci + 1;
                }
                json_map_insert(&mut m, String::from_str("children"), json_array(kids));
                json_object(m)
            },
            TraceNode::Group { id, access, marker, is_subject } => {
                let mut m = json_map_new();
                json_map_insert(&mut m, String::from_str("type"), json_string(
                    String::from_str("group"),
                ));
                json_map_insert(&mut m, String::from_str("id"), json_string(id.clone()));
                json_map_insert(&mut m, String::from_str("access"), self.rights_to_json(*access));
                let ms = marker.to_string();
                json_map_insert(&mut m, String::from_str("marker"), json_string(ms));
                json_map_insert(&mut m, String::from_str("is_subject"), json_bool(*is_subject));
                json_object(m)
            },
            TraceNode::Permission { subject, object, access } => {
                let mut m = json_map_new();
                json_map_insert(&mut m, String::from_str("type"), json_string(
                    String::from_str("permission"),
                ));
                json_map_insert(&mut m, String::from_str("subject"), json_string(subject.clone()));
                json_map_insert(&mut m, String::from_str("object"), json_string(object.clone()));
                json_map_insert(&mut m, String::from_str("access"), self.rights_to_json(*access));
                json_object(m)
            },
            TraceNode::Info(info) => {
                let mut m = json_map_new();
                json_map_insert(&mut m, String::from_str("type"), json_string(
                    String::from_str("info"),
                ));
                json_map_insert(&mut m, String::from_str("message"), json_string(info.clone()));
                json_object(m)
            },
        }
    }

    fn to_json_string(&self) -> String {
        let mut m = json_map_new();
        let idv = match &self.id {
            Some(s) => json_string(s.clone()),
            None => json_null(),
        };
        json_map_insert(&mut m, String::from_str("id"), idv);
        let uv = match &self.user_id {
            Some(s) => json_string(s.clone()),
            None => json_null(),
        };
        json_map_insert(&mut m, String::from_str("user_id"), uv);
        let rv = match &self.request_access {
            Some(r) => self.rights_to_json(*r),
            None => json_null(),
        };
        json_map_insert(&mut m, String::from_str("request_access"), rv);
        let tv = match &self.root {
            Some(root) => self.node_to_json(root),
            None => json_null(),
        };
        json_map_insert(&mut m, String::from_str("trace"), tv);
        let v = json_object(m);
        json_to_string_pretty(&v)
    }

    /// Renders the tree to pretty-printed JSON; a disabled trace yields
    /// nothing.
    pub fn finalize(self) -> (r: Option<String>)
        ensures
            (r is Some) == (self.mode != TraceMode::Disabled),
    {
        match self.mode {
            TraceMode::Disabled => None,
            _ => Some(self.to_json_string()),
        }
    }
}

/// The words a rights mask renders to: one word per known bit, or a filler
/// when none is set.
pub open spec fn spec_rights_words(rights: u8) -> Seq<Seq<char>> {
    let base = (if rights & 1 != 0 {
        seq!["Read"@]
    } else {
        Seq::<Seq<char>>::empty()
    }) + (if rights & 2 != 0 {
        seq!["Write"@]
    } else {
        Seq::<Seq<char>>::empty()
    }) + (if rights & 4 != 0 {
        seq!["Execute"@]
    } else {
        Seq::<Seq<char>>::empty()
    });
    if base.len() == 0 {
        seq!["No Rights"@]
    } else {
        base
    }
}

} // verus!
