//! The reconciliation protocol's guarantees, stated and proved over the
//! per-platform step models: what holds of every render sequence, on every
//! platform, whatever the native layer answers.

use vstd::prelude::*;

use crate::activity::{
    publish_state, publish_woken, wait_result, wait_state, ActivityPoll, BroadcastModel,
};
use crate::descriptor::{Platform, WindowDescriptor};
use crate::droid::{droid_next_state, droid_render_ops, droid_status};
use crate::ios::{ios_next_state, ios_render_ops, ios_status};
use crate::mac::{mac_next_state, mac_prefix_len, mac_render_ops, mac_status};
use crate::ops::{
    contains_create, contains_teardown, is_create_op, is_teardown_op, CreateOutcome, NativeOp,
    RenderEnv, RenderStatus,
};
use crate::reconcile::{spec_decide, Action, InstanceState};
use crate::utf16::null_terminated_utf16;
use crate::win::{win_next_state, win_render_ops, win_status};

verus! {

/// Whether the surroundings let this render reach the native layer at all:
/// the Apple platforms demand the UI thread, Android a published activity,
/// and the Win32 path runs anywhere.
pub open spec fn env_ready(platform: Platform, env: RenderEnv) -> bool {
    match platform {
        Platform::Windows => true,
        Platform::MacOs | Platform::Ios => env.on_main_thread,
        Platform::Android => env.activity_present,
    }
}

/// Whether this render's creation request succeeded on the given platform;
/// on Win32 the module-handle lookup must succeed first.
pub open spec fn create_succeeds(platform: Platform, outcome: CreateOutcome) -> bool {
    match platform {
        Platform::Windows => outcome.module_ok && outcome.ok,
        _ => outcome.ok,
    }
}

/// Whether the stages before the creation call itself went through, so that
/// a failed creation still means the call was attempted.
pub open spec fn module_stage_ok(platform: Platform, outcome: CreateOutcome) -> bool {
    platform is Windows ==> outcome.module_ok
}

/// The persistent state after one render, on any platform.
pub open spec fn next_state(
    platform: Platform,
    desc: WindowDescriptor,
    s: InstanceState,
    outcome: CreateOutcome,
    env: RenderEnv,
) -> InstanceState {
    match platform {
        Platform::Windows => win_next_state(desc, s, outcome),
        Platform::MacOs => mac_next_state(desc, s, outcome, env.on_main_thread),
        Platform::Ios => ios_next_state(desc, s, outcome, env.on_main_thread),
        Platform::Android => droid_next_state(desc, s, outcome, env.activity_present),
    }
}

/// How one render ends, on any platform.
pub open spec fn step_status(
    platform: Platform,
    desc: WindowDescriptor,
    s: InstanceState,
    outcome: CreateOutcome,
    env: RenderEnv,
) -> RenderStatus {
    match platform {
        Platform::Windows => win_status(desc, s, outcome),
        Platform::MacOs => mac_status(desc, s, outcome, env.on_main_thread),
        Platform::Ios => ios_status(desc, s, outcome, env.on_main_thread),
        Platform::Android => droid_status(desc, s, outcome, env.activity_present),
    }
}

/// The exact operation sequence of one render, on any platform.
pub open spec fn render_ops_ok(
    platform: Platform,
    ops: Seq<NativeOp>,
    desc: WindowDescriptor,
    s: InstanceState,
    outcome: CreateOutcome,
    env: RenderEnv,
) -> bool {
    match platform {
        Platform::Windows => win_render_ops(ops, desc, s, outcome),
        Platform::MacOs => mac_render_ops(
            ops,
            desc,
            s,
            outcome,
            env.on_main_thread,
            env.menu_installed,
        ),
        Platform::Ios => ios_render_ops(ops, desc, s, outcome, env.on_main_thread),
        Platform::Android => droid_render_ops(ops, desc, s, outcome, env.activity_present),
    }
}

/// Whether the operation re-applies the declared title: the UTF-16 window
/// text on Win32, the window or activity title elsewhere.
pub open spec fn applies_title(op: NativeOp, title: Seq<char>) -> bool {
    ||| op matches NativeOp::SetWindowText { title: t } && t@ == null_terminated_utf16(title)
    ||| op matches NativeOp::SetTitle { title: t } && t@ == title
    ||| op matches NativeOp::SetActivityTitle { title: t } && t@ == title
}

/// Whether the operation re-applies the declared size.
pub open spec fn applies_size(op: NativeOp, width: i32, height: i32) -> bool {
    ||| op matches NativeOp::SetWindowPos { width: w, height: h, .. } && w == width && h == height
    ||| op matches NativeOp::SetFrame { width: w, height: h, .. } && w == width && h == height
    ||| op matches NativeOp::SetLayoutSize { width: w, height: h } && w == width && h == height
}

/// Whether the operation re-applies the declared input state.
pub open spec fn applies_enabled(op: NativeOp, enabled: bool) -> bool {
    ||| op == (NativeOp::EnableInput { enabled })
    ||| op == (NativeOp::SetIgnoresMouse { ignores: !enabled })
    ||| op == (NativeOp::SetUserInteraction { enabled })
    ||| op == (NativeOp::SetTouchFlag { enabled })
}

/// A visible render on an initialized instance changes nothing persisted:
/// the handle is updated in place, never silently recreated.
pub proof fn lemma_update_keeps_state(
    platform: Platform,
    desc: WindowDescriptor,
    s: InstanceState,
    outcome: CreateOutcome,
    env: RenderEnv,
)
    requires
        s.initialized,
        desc.visible,
        env_ready(platform, env),
    ensures
        next_state(platform, desc, s, outcome, env) == s,
        step_status(platform, desc, s, outcome, env) == RenderStatus::Completed,
{
}

/// A visible render on an initialized instance issues no creation call.
pub proof fn lemma_update_ops_no_create(
    platform: Platform,
    ops: Seq<NativeOp>,
    desc: WindowDescriptor,
    s: InstanceState,
    outcome: CreateOutcome,
    env: RenderEnv,
)
    requires
        s.initialized,
        desc.visible,
        env_ready(platform, env),
        render_ops_ok(platform, ops, desc, s, outcome, env),
    ensures
        !contains_create(ops),
{
    assert forall|i: int| 0 <= i < ops.len() implies !is_create_op(ops[i]) by {}
}

/// The persistent state after a whole sequence of renders, each fed its own
/// descriptor, creation outcome and surroundings.
pub open spec fn run_state(
    platform: Platform,
    descs: Seq<WindowDescriptor>,
    outcomes: Seq<CreateOutcome>,
    envs: Seq<RenderEnv>,
    s0: InstanceState,
) -> InstanceState
    decreases descs.len(),
{
    if descs.len() == 0 {
        s0
    } else {
        next_state(
            platform,
            descs.last(),
            run_state(platform, descs.drop_last(), outcomes.drop_last(), envs.drop_last(), s0),
            outcomes.last(),
            envs.last(),
        )
    }
}

/// The persistent state a render sequence has reached just before its
/// `i`-th render.
pub open spec fn state_before(
    platform: Platform,
    descs: Seq<WindowDescriptor>,
    outcomes: Seq<CreateOutcome>,
    envs: Seq<RenderEnv>,
    s0: InstanceState,
    i: int,
) -> InstanceState {
    run_state(platform, descs.take(i), outcomes.take(i), envs.take(i), s0)
}

/// Once a create has succeeded, any run of visible renders — whatever the
/// native layer answers to them — leaves the persistent state exactly as it
/// was: `initialized` stays true and the handle is never replaced.
pub proof fn lemma_visible_run_keeps_state(
    platform: Platform,
    descs: Seq<WindowDescriptor>,
    outcomes: Seq<CreateOutcome>,
    envs: Seq<RenderEnv>,
    s0: InstanceState,
    i: int,
)
    requires
        descs.len() == outcomes.len() && descs.len() == envs.len(),
        s0.initialized,
        forall|j: int| 0 <= j < descs.len() ==> #[trigger] descs[j].visible,
        forall|j: int| 0 <= j < descs.len() ==> env_ready(platform, #[trigger] envs[j]),
        0 <= i <= descs.len(),
    ensures
        state_before(platform, descs, outcomes, envs, s0, i) == s0,
    decreases i,
{
    if i > 0 {
        lemma_visible_run_keeps_state(platform, descs, outcomes, envs, s0, i - 1);
        assert(descs.take(i).drop_last() =~= descs.take(i - 1));
        assert(outcomes.take(i).drop_last() =~= outcomes.take(i - 1));
        assert(envs.take(i).drop_last() =~= envs.take(i - 1));
        lemma_update_keeps_state(platform, descs[i - 1], s0, outcomes[i - 1], envs[i - 1]);
    }
}

/// Idempotent creation: after the first successful create, any sequence of
/// visible renders keeps `initialized` true, keeps the same handle, and
/// issues no second creation call.
pub proof fn law_idempotent_creation(
    platform: Platform,
    descs: Seq<WindowDescriptor>,
    outcomes: Seq<CreateOutcome>,
    envs: Seq<RenderEnv>,
    opss: Seq<Seq<NativeOp>>,
    s0: InstanceState,
)
    requires
        descs.len() == outcomes.len() && descs.len() == envs.len() && descs.len() == opss.len(),
        s0.initialized,
        forall|j: int| 0 <= j < descs.len() ==> #[trigger] descs[j].visible,
        forall|j: int| 0 <= j < descs.len() ==> env_ready(platform, #[trigger] envs[j]),
        forall|j: int|
            0 <= j < descs.len() ==> render_ops_ok(
                platform,
                #[trigger] opss[j],
                descs[j],
                state_before(platform, descs, outcomes, envs, s0, j),
                outcomes[j],
                envs[j],
            ),
    ensures
        forall|j: int|
            0 <= j <= descs.len() ==> state_before(platform, descs, outcomes, envs, s0, j) == s0,
        forall|j: int| 0 <= j < descs.len() ==> !contains_create(#[trigger] opss[j]),
{
    assert forall|j: int|
        0 <= j <= descs.len() implies state_before(platform, descs, outcomes, envs, s0, j)
        == s0 by {
        lemma_visible_run_keeps_state(platform, descs, outcomes, envs, s0, j);
    }
    assert forall|j: int| 0 <= j < descs.len() implies !contains_create(#[trigger] opss[j]) by {
        lemma_update_ops_no_create(
            platform,
            opss[j],
            descs[j],
            state_before(platform, descs, outcomes, envs, s0, j),
            outcomes[j],
            envs[j],
        );
    }
}

/// Create-retry on failure: a failed creation leaves the state exactly as
/// it was — in particular `initialized` stays false — and the next visible
/// render attempts creation again; both renders issue a creation call.
pub proof fn law_create_retry(
    platform: Platform,
    desc: WindowDescriptor,
    o1: CreateOutcome,
    o2: CreateOutcome,
    env1: RenderEnv,
    env2: RenderEnv,
    ops1: Seq<NativeOp>,
    ops2: Seq<NativeOp>,
    s0: InstanceState,
)
    requires
        !s0.initialized,
        desc.visible,
        env_ready(platform, env1),
        env_ready(platform, env2),
        module_stage_ok(platform, o1),
        module_stage_ok(platform, o2),
        !create_succeeds(platform, o1),
        render_ops_ok(platform, ops1, desc, s0, o1, env1),
        render_ops_ok(platform, ops2, desc, next_state(platform, desc, s0, o1, env1), o2, env2),
    ensures
        next_state(platform, desc, s0, o1, env1) == s0,
        step_status(platform, desc, s0, o1, env1) == RenderStatus::CreateFailed,
        contains_create(ops1),
        contains_create(ops2),
{
    match platform {
        Platform::Windows => {
            assert(is_create_op(ops1[2]));
            assert(is_create_op(ops2[2]));
        },
        Platform::MacOs => {
            assert(is_create_op(ops1[mac_prefix_len(env1.menu_installed)]));
            assert(is_create_op(ops2[mac_prefix_len(env2.menu_installed)]));
        },
        Platform::Ios => {
            assert(is_create_op(ops1[1]));
            assert(is_create_op(ops2[1]));
        },
        Platform::Android => {
            assert(is_create_op(ops1[0]));
            assert(is_create_op(ops2[0]));
        },
    }
}

/// Hide-then-show lifecycle: show, hide, show runs create, teardown, create
/// — never update-after-hide — and the second create stores the handle the
/// platform reports for it, a fresh one whenever the platform hands out a
/// new identity.
pub proof fn law_hide_then_show(
    platform: Platform,
    d1: WindowDescriptor,
    d2: WindowDescriptor,
    d3: WindowDescriptor,
    o1: CreateOutcome,
    o2: CreateOutcome,
    o3: CreateOutcome,
    env1: RenderEnv,
    env2: RenderEnv,
    env3: RenderEnv,
    ops1: Seq<NativeOp>,
    ops2: Seq<NativeOp>,
    ops3: Seq<NativeOp>,
    s0: InstanceState,
)
    requires
        !s0.initialized,
        d1.visible,
        !d2.visible,
        d3.visible,
        env_ready(platform, env1),
        env_ready(platform, env2),
        env_ready(platform, env3),
        create_succeeds(platform, o1),
        create_succeeds(platform, o3),
        render_ops_ok(platform, ops1, d1, s0, o1, env1),
        render_ops_ok(
            platform,
            ops2,
            d2,
            next_state(platform, d1, s0, o1, env1),
            o2,
            env2,
        ),
        render_ops_ok(
            platform,
            ops3,
            d3,
            next_state(
                platform,
                d2,
                next_state(platform, d1, s0, o1, env1),
                o2,
                env2,
            ),
            o3,
            env3,
        ),
    ensures
        contains_create(ops1),
        next_state(platform, d1, s0, o1, env1).initialized,
        contains_teardown(ops2),
        !contains_create(ops2),
        !next_state(
            platform,
            d2,
            next_state(platform, d1, s0, o1, env1),
            o2,
            env2,
        ).initialized,
        next_state(
            platform,
            d2,
            next_state(platform, d1, s0, o1, env1),
            o2,
            env2,
        ).handle is None,
        spec_decide(platform, d3.visible, false) == Action::Create,
        ({
            let s3 = next_state(
                platform,
                d3,
                next_state(
                    platform,
                    d2,
                    next_state(platform, d1, s0, o1, env1),
                    o2,
                    env2,
                ),
                o3,
                env3,
            );
            &&& s3.initialized
            &&& platform !is Android ==> s3.handle == Some(o3.handle)
        }),
        platform !is Android ==> next_state(platform, d1, s0, o1, env1).handle == Some(o1.handle),
        contains_create(ops3),
{
    let s1 = next_state(platform, d1, s0, o1, env1);
    let s2 = next_state(platform, d2, s1, o2, env2);
    match platform {
        Platform::Windows => {
            assert(is_create_op(ops1[2]));
            assert(is_teardown_op(ops2[0]));
            assert(is_create_op(ops3[2]));
        },
        Platform::MacOs => {
            assert(is_create_op(ops1[mac_prefix_len(env1.menu_installed)]));
            assert(is_teardown_op(ops2[0]));
            assert(is_create_op(ops3[mac_prefix_len(env3.menu_installed)]));
        },
        Platform::Ios => {
            assert(is_create_op(ops1[1]));
            assert(is_teardown_op(ops2[0]));
            assert(is_create_op(ops3[1]));
        },
        Platform::Android => {
            assert(is_create_op(ops1[0]));
            assert(is_teardown_op(ops2[0]));
            assert(is_create_op(ops3[0]));
        },
    }
    assert forall|i: int| 0 <= i < ops2.len() implies !is_create_op(ops2[i]) by {}
}

/// Partial update resilience: a visible render on an initialized instance
/// plans the very same operations whatever the native layer answers — one
/// field's failure cannot keep the remaining fields from being attempted —
/// and the render completes with the state untouched. Every declared field
/// is in the plan: the size, the input state, and (except on the title-less
/// iOS window) the title.
pub proof fn law_partial_update_resilient(
    platform: Platform,
    desc: WindowDescriptor,
    s: InstanceState,
    outcome: CreateOutcome,
    env: RenderEnv,
    ops: Seq<NativeOp>,
)
    requires
        s.initialized,
        desc.visible,
        env_ready(platform, env),
        render_ops_ok(platform, ops, desc, s, outcome, env),
    ensures
        step_status(platform, desc, s, outcome, env) == RenderStatus::Completed,
        next_state(platform, desc, s, outcome, env) == s,
        forall|other: CreateOutcome| render_ops_ok(platform, ops, desc, s, other, env),
        exists|i: int| 0 <= i < ops.len() && applies_size(#[trigger] ops[i], desc.width, desc.height),
        exists|i: int| 0 <= i < ops.len() && applies_enabled(#[trigger] ops[i], desc.enabled),
        platform !is Ios ==> exists|i: int|
            0 <= i < ops.len() && applies_title(#[trigger] ops[i], desc.title@),
{
    match platform {
        Platform::Windows => {
            assert(applies_title(ops[1], desc.title@));
            assert(applies_size(ops[2], desc.width, desc.height));
            assert(applies_enabled(ops[3], desc.enabled));
        },
        Platform::MacOs => {
            let p = mac_prefix_len(env.menu_installed);
            assert(applies_title(ops[p], desc.title@));
            assert(applies_size(ops[p + 1], desc.width, desc.height));
            assert(applies_enabled(ops[p + 2], desc.enabled));
        },
        Platform::Ios => {
            assert(applies_size(ops[0], desc.width, desc.height));
            assert(applies_enabled(ops[1], desc.enabled));
        },
        Platform::Android => {
            assert(applies_title(ops[0], desc.title@));
            assert(applies_size(ops[1], desc.width, desc.height));
            assert(applies_enabled(ops[2], desc.enabled));
        },
    }
}

/// The handle changes hands only on the two sanctioned paths: it goes from
/// absent to present only through a successful create, from present to
/// absent only through the hide/destroy path, and never moves otherwise.
pub proof fn law_handle_moves_only_by_create_or_teardown(
    platform: Platform,
    desc: WindowDescriptor,
    s: InstanceState,
    outcome: CreateOutcome,
    env: RenderEnv,
)
    requires
        s.wf(platform),
    ensures
        ({
            let a = spec_decide(platform, desc.visible, s.initialized);
            let s2 = next_state(platform, desc, s, outcome, env);
            s2.handle != s.handle ==> {
                ||| {
                    &&& a == Action::Create
                    &&& env_ready(platform, env)
                    &&& create_succeeds(platform, outcome)
                    &&& s.handle is None
                    &&& s2.handle == Some(outcome.handle)
                }
                ||| {
                    &&& a == Action::Hide
                    &&& env_ready(platform, env)
                    &&& s2.handle is None
                }
            }
        }),
{
}

/// Activity wait correctness: a wait before any publish suspends the
/// caller; a publish of a live reference wakes every waiter suspended at
/// publish time, and any caller arriving while the slot stays populated
/// resolves immediately with that reference; a destroy publish makes the
/// next wait suspend again.
pub proof fn law_activity_wait(m: BroadcastModel, a: u64, w: u64)
    ensures
        m.slot is None ==> wait_result(m, w) is Pending && wait_state(m, w).waiters == m.waiters.push(
            w,
        ),
        publish_woken(m) == m.waiters,
        publish_state(m, Some(a)).slot == Some(a),
        wait_result(publish_state(m, Some(a)), w) == ActivityPoll::Ready(a),
        wait_state(publish_state(m, Some(a)), w) == publish_state(m, Some(a)),
        wait_result(publish_state(m, None), w) is Pending,
{
}

} // verus!
