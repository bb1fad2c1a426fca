//! Discovery of the eye-gaze binding: which action stands for the gaze pose,
//! and which action spaces are its left and right anchors.
//!
//! Action spaces are created before the application says which action is the
//! gaze action, so every successful creation is remembered in a pending
//! table keyed by (action, subaction path).  When the bindings for the
//! eye-gaze interaction profile are suggested, the gaze action is found and
//! its anchors are taken from that table, which is then cleared.
use vstd::prelude::*;
use crate::text::str_eq;

verus! {

/// Name of the eye-gaze interaction profile.
pub const EYE_GAZE_PROFILE: &'static str = "/interaction_profiles/ext/eye_gaze_interaction";

/// Binding path of the gaze pose input.
pub const EYE_GAZE_POSE_PATH: &'static str = "/user/eyes_ext/input/gaze_ext/pose";

/// Raw value of the subaction path taken for the left eye.
pub const LEFT_SUBACTION_PATH: u64 = 1;

/// Raw value of the subaction path taken for the right eye.
pub const RIGHT_SUBACTION_PATH: u64 = 2;

pub open spec fn eye_gaze_profile() -> Seq<char> {
    "/interaction_profiles/ext/eye_gaze_interaction"@
}

pub open spec fn eye_gaze_pose_path() -> Seq<char> {
    "/user/eyes_ext/input/gaze_ext/pose"@
}

/// An action space created by the runtime, not yet known to belong to the
/// gaze action or not.
#[derive(PartialEq, Eq, Structural, Clone, Copy, Debug)]
pub struct PendingSpace {
    pub action: u64,
    pub subaction_path: u64,
    pub space: u64,
}

/// One suggested binding, with its binding path already turned into its name.
#[derive(Debug)]
pub struct SuggestedBinding {
    pub action: u64,
    pub binding: String,
}

/// What a binding suggestion call does.
#[derive(PartialEq, Eq, Structural, Clone, Copy, Debug)]
pub enum SuggestOutcome {
    /// Another profile: the call goes to the runtime unchanged.
    Forward,
    /// The eye-gaze profile: the layer took the bindings and reports success.
    Handled,
}

/// The state of the binding discovery.
pub struct BindingResolver {
    /// Created spaces in creation order; a later entry shadows an earlier one
    /// with the same key.
    pending: Vec<PendingSpace>,
    gaze_action: Option<u64>,
    left_space: Option<u64>,
    right_space: Option<u64>,
}

/// Mathematical view of a `BindingResolver`.
pub struct ResolverView {
    pub pending: Map<(u64, u64), u64>,
    pub gaze_action: Option<u64>,
    pub left_space: Option<u64>,
    pub right_space: Option<u64>,
}

/// The pending table that a list of creations in order amounts to.
pub open spec fn pending_map(s: Seq<PendingSpace>) -> Map<(u64, u64), u64>
    decreases s.len(),
{
    if s.len() == 0 {
        Map::empty()
    } else {
        pending_map(s.drop_last()).insert(
            (s.last().action, s.last().subaction_path),
            s.last().space,
        )
    }
}

/// The state after a successful space creation: a left or right space of
/// the resolved gaze action becomes that eye's anchor; any other space is
/// left pending.
pub open spec fn record_space(v: ResolverView, action: u64, subaction_path: u64, space: u64) -> ResolverView {
    if v.gaze_action == Some(action) && subaction_path == LEFT_SUBACTION_PATH {
        ResolverView { left_space: Some(space), ..v }
    } else if v.gaze_action == Some(action) && subaction_path == RIGHT_SUBACTION_PATH {
        ResolverView { right_space: Some(space), ..v }
    } else {
        ResolverView { pending: v.pending.insert((action, subaction_path), space), ..v }
    }
}

/// The anchor stored for `key`, or `prev` where there is none.
pub open spec fn anchor_or(pending: Map<(u64, u64), u64>, key: (u64, u64), prev: Option<u64>) -> Option<u64> {
    if pending.contains_key(key) {
        Some(pending[key])
    } else {
        prev
    }
}

/// The state after seeing one binding of the eye-gaze profile.
pub open spec fn resolve_step(v: ResolverView, action: u64, binding: Seq<char>) -> ResolverView {
    if binding == eye_gaze_pose_path() {
        ResolverView {
            pending: Map::empty(),
            gaze_action: Some(action),
            left_space: anchor_or(v.pending, (action, LEFT_SUBACTION_PATH), v.left_space),
            right_space: anchor_or(v.pending, (action, RIGHT_SUBACTION_PATH), v.right_space),
        }
    } else {
        v
    }
}

/// The state after seeing all bindings of the eye-gaze profile, in order.
pub open spec fn resolve_all(v: ResolverView, bindings: Seq<SuggestedBinding>) -> ResolverView
    decreases bindings.len(),
{
    if bindings.len() == 0 {
        v
    } else {
        let prev = resolve_all(v, bindings.drop_last());
        resolve_step(prev, bindings.last().action, bindings.last().binding@)
    }
}

/// The state after a binding suggestion for `profile`.
pub open spec fn suggest(v: ResolverView, profile: Seq<char>, bindings: Seq<SuggestedBinding>) -> ResolverView {
    if profile == eye_gaze_profile() {
        resolve_all(v, bindings)
    } else {
        v
    }
}

/// Entries after position `i` never have key `k`, so the table of the whole
/// list agrees on `k` with that of its first `i` entries.
proof fn lemma_pending_prefix(s: Seq<PendingSpace>, i: int, k: (u64, u64))
    requires
        0 <= i <= s.len(),
        forall|j: int| i <= j < s.len() ==> !(#[trigger] s[j].action == k.0 && s[j].subaction_path == k.1),
    ensures
        pending_map(s).contains_key(k) == pending_map(s.take(i)).contains_key(k),
        pending_map(s).contains_key(k) ==> pending_map(s)[k] == pending_map(s.take(i))[k],
    decreases s.len(),
{
    if s.len() > i {
        lemma_pending_prefix(s.drop_last(), i, k);
        assert(s.drop_last().take(i) =~= s.take(i));
    } else {
        assert(s.take(i) =~= s);
    }
}

/// Creating the left and the right anchor of an action that is not yet the
/// gaze action before the bindings are suggested gives the same state as
/// creating them after the suggestion: the binding holds that action, with
/// the two created spaces as its left and right anchors.
pub proof fn lemma_anchor_creation_order(
    v: ResolverView,
    action: u64,
    left: u64,
    right: u64,
    bindings: Seq<SuggestedBinding>,
)
    requires
        v.gaze_action != Some(action),
        bindings.len() == 1,
        bindings[0].action == action,
        bindings[0].binding@ == eye_gaze_pose_path(),
    ensures
        suggest(
            record_space(record_space(v, action, LEFT_SUBACTION_PATH, left), action, RIGHT_SUBACTION_PATH, right),
            eye_gaze_profile(),
            bindings,
        ) == record_space(
            record_space(suggest(v, eye_gaze_profile(), bindings), action, LEFT_SUBACTION_PATH, left),
            action,
            RIGHT_SUBACTION_PATH,
            right,
        ),
        ({
            let r = record_space(
                record_space(suggest(v, eye_gaze_profile(), bindings), action, LEFT_SUBACTION_PATH, left),
                action,
                RIGHT_SUBACTION_PATH,
                right,
            );
            &&& r.gaze_action == Some(action)
            &&& r.left_space == Some(left)
            &&& r.right_space == Some(right)
            &&& r.pending == Map::<(u64, u64), u64>::empty()
        }),
{
    let before = record_space(record_space(v, action, LEFT_SUBACTION_PATH, left), action, RIGHT_SUBACTION_PATH, right);
    assert(bindings.drop_last().len() == 0);
    assert(resolve_all(before, bindings.drop_last()) == before);
    assert(resolve_all(v, bindings.drop_last()) == v);
    assert(before.pending.contains_key((action, LEFT_SUBACTION_PATH)));
    assert(before.pending.contains_key((action, RIGHT_SUBACTION_PATH)));
}

impl BindingResolver {
    pub closed spec fn view(&self) -> ResolverView {
        ResolverView {
            pending: pending_map(self.pending@),
            gaze_action: self.gaze_action,
            left_space: self.left_space,
            right_space: self.right_space,
        }
    }

    /// A resolver with nothing pending and nothing resolved.
    pub fn new() -> (r: BindingResolver)
        ensures
            r.view() == (ResolverView {
                pending: Map::empty(),
                gaze_action: None,
                left_space: None,
                right_space: None,
            }),
    {
        BindingResolver { pending: Vec::new(), gaze_action: None, left_space: None, right_space: None }
    }

    /// The resolved gaze action, if any.
    pub fn gaze_action(&self) -> (r: Option<u64>)
        ensures
            r == self.view().gaze_action,
    {
        self.gaze_action
    }

    /// The resolved left-eye anchor, if any.
    pub fn left_space(&self) -> (r: Option<u64>)
        ensures
            r == self.view().left_space,
    {
        self.left_space
    }

    /// The resolved right-eye anchor, if any.
    pub fn right_space(&self) -> (r: Option<u64>)
        ensures
            r == self.view().right_space,
    {
        self.right_space
    }

    /// Takes a space created for `(action, subaction_path)`: for the resolved
    /// gaze action, a left or right space becomes that eye's anchor; any other
    /// space is remembered as pending.
    pub fn record_space(&mut self, action: u64, subaction_path: u64, space: u64)
        ensures
            final(self).view() == record_space(old(self).view(), action, subaction_path, space),
    {
        if let Some(a) = self.gaze_action {
            if a == action && subaction_path == LEFT_SUBACTION_PATH {
                self.left_space = Some(space);
                return;
            }
            if a == action && subaction_path == RIGHT_SUBACTION_PATH {
                self.right_space = Some(space);
                return;
            }
        }
        let ghost before = self.pending@;
        self.pending.push(PendingSpace { action, subaction_path, space });
        proof {
            assert(self.pending@.drop_last() =~= before);
        }
    }

    /// The space recorded for `(action, subaction_path)`, if any.
    pub fn pending_space(&self, action: u64, subaction_path: u64) -> (r: Option<u64>)
        ensures
            r == (if self.view().pending.contains_key((action, subaction_path)) {
                Some(self.view().pending[(action, subaction_path)])
            } else {
                None
            }),
    {
        let ghost k = (action, subaction_path);
        let mut i: usize = self.pending.len();
        while i > 0
            invariant
                i <= self.pending@.len(),
                k == (action, subaction_path),
                forall|j: int|
                    i <= j < self.pending@.len() ==> !(#[trigger] self.pending@[j].action == action
                        && self.pending@[j].subaction_path == subaction_path),
            decreases i,
        {
            let e = self.pending[i - 1];
            if e.action == action && e.subaction_path == subaction_path {
                proof {
                    let s = self.pending@;
                    lemma_pending_prefix(s, i as int, k);
                    let t = s.take(i as int);
                    assert(t.drop_last() =~= s.take(i - 1));
                    assert(t.last() == e);
                    assert(pending_map(t) == pending_map(t.drop_last()).insert(k, e.space));
                }
                return Some(e.space);
            }
            i = i - 1;
        }
        proof {
            lemma_pending_prefix(self.pending@, 0, k);
        }
        None
    }

    /// Takes one binding of the eye-gaze profile into account.
    fn resolve_binding(&mut self, binding: &SuggestedBinding)
        ensures
            final(self).view() == resolve_step(old(self).view(), binding.action, binding.binding@),
    {
        proof {
            reveal_strlit("/user/eyes_ext/input/gaze_ext/pose");
        }
        if str_eq(binding.binding.as_str(), EYE_GAZE_POSE_PATH) {
            let action = binding.action;
            self.gaze_action = Some(action);
            if let Some(l) = self.pending_space(action, LEFT_SUBACTION_PATH) {
                self.left_space = Some(l);
            }
            if let Some(r) = self.pending_space(action, RIGHT_SUBACTION_PATH) {
                self.right_space = Some(r);
            }
            self.pending = Vec::new();
            proof {
                assert(pending_map(self.pending@) =~= Map::empty());
            }
        }
    }

    /// Handles a binding suggestion for the profile named `profile`, whose
    /// bindings' paths are named in `bindings`.  For the eye-gaze profile
    /// each binding to the gaze pose resolves the gaze action and its
    /// anchors, and the pending table is cleared; any other profile is
    /// forwarded and leaves the state as it was.
    pub fn suggest_bindings(&mut self, profile: &str, bindings: &Vec<SuggestedBinding>) -> (r: SuggestOutcome)
        ensures
            r == (if profile@ == eye_gaze_profile() {
                SuggestOutcome::Handled
            } else {
                SuggestOutcome::Forward
            }),
            final(self).view() == suggest(old(self).view(), profile@, bindings@),
    {
        proof {
            reveal_strlit("/interaction_profiles/ext/eye_gaze_interaction");
        }
        if !str_eq(profile, EYE_GAZE_PROFILE) {
            return SuggestOutcome::Forward;
        }
        let ghost start = self.view();
        let mut i: usize = 0;
        while i < bindings.len()
            invariant
                i <= bindings@.len(),
                self.view() == resolve_all(start, bindings@.take(i as int)),
            decreases bindings@.len() - i,
        {
            self.resolve_binding(&bindings[i]);
            proof {
                assert(bindings@.take(i + 1).drop_last() =~= bindings@.take(i as int));
            }
            i = i + 1;
        }
        proof {
            assert(bindings@.take(i as int) =~= bindings@);
        }
        SuggestOutcome::Handled
    }
}

} // verus!
