//! Render tasks: the units of off-screen work of a frame, kept in one arena
//! with their dependencies as indices, and the pass that each must run in.

use vstd::prelude::*;
use crate::gpu_types::BlurDirection;
use crate::api::F32Bits;
use crate::units::{DeviceIntPoint, DeviceIntRect, DeviceIntSize, DeviceUintPoint, DeviceUintSize};

verus! {

/// Names a render task: its position in the arena of its tree.
#[derive(Clone, Copy, Debug, PartialEq, Eq, Structural)]
pub struct RenderTaskId(pub usize);

/// The layer of a target list that a task draws to.
#[derive(Clone, Copy, Debug, PartialEq, Eq, Structural)]
pub struct RenderTargetIndex(pub usize);

/// The two kinds of off-screen target: four colour channels, or one
/// channel of coverage.
#[derive(Clone, Copy, Debug, PartialEq, Eq, Structural)]
pub enum RenderTargetKind {
    Color,
    Alpha,
}

/// Where the content of a picture sits.
#[derive(Clone, Copy, Debug, PartialEq, Eq, Structural)]
pub enum ContentOrigin {
    /// In the picture's own space.
    Local(F32Bits, F32Bits),
    /// In device pixels of the screen.
    Screen(DeviceIntPoint),
}

/// What a render task does.
#[derive(Clone, Copy, Debug, PartialEq, Eq, Structural)]
pub enum RenderTaskKind {
    Picture { content_origin: ContentOrigin, target_kind: RenderTargetKind },
    /// One pass of a separable blur over the output of the first
    /// dependency.
    Blur { target_kind: RenderTargetKind, direction: BlurDirection },
    ClipMask,
    Scaling { target_kind: RenderTargetKind },
    Readback,
    CacheMask,
}

impl RenderTaskKind {
    /// The kind of target that the task draws to: masks are coverage,
    /// readbacks are colour, the others say it themselves.
    pub open spec fn spec_target_kind(self) -> RenderTargetKind {
        match self {
            RenderTaskKind::Picture { target_kind, .. } => target_kind,
            RenderTaskKind::Blur { target_kind, .. } => target_kind,
            RenderTaskKind::Scaling { target_kind } => target_kind,
            RenderTaskKind::ClipMask => RenderTargetKind::Alpha,
            RenderTaskKind::CacheMask => RenderTargetKind::Alpha,
            RenderTaskKind::Readback => RenderTargetKind::Color,
        }
    }

    pub fn target_kind(&self) -> (k: RenderTargetKind)
        ensures
            k == self.spec_target_kind(),
    {
        match self {
            RenderTaskKind::Picture { target_kind, .. } => *target_kind,
            RenderTaskKind::Blur { target_kind, .. } => *target_kind,
            RenderTaskKind::Scaling { target_kind } => *target_kind,
            RenderTaskKind::ClipMask => RenderTargetKind::Alpha,
            RenderTaskKind::CacheMask => RenderTargetKind::Alpha,
            RenderTaskKind::Readback => RenderTargetKind::Color,
        }
    }
}

/// Where a task was placed: the corner of its rectangle and the layer.
#[derive(Clone, Copy, Debug, PartialEq, Eq, Structural)]
pub struct RenderTaskLocation {
    pub origin: DeviceUintPoint,
    pub target_index: RenderTargetIndex,
}

/// One unit of off-screen work.
#[derive(Debug, PartialEq, Eq)]
pub struct RenderTask {
    /// The dependencies: the tasks whose output is read here.
    pub children: Vec<RenderTaskId>,
    pub kind: RenderTaskKind,
    /// The size of the output that the task asks for.
    pub size: DeviceUintSize,
    /// Where the output was placed, once a pass took the task.
    pub location: Option<RenderTaskLocation>,
}

impl RenderTask {
    /// The task was placed, and its rectangle can be named with signed
    /// 32-bit numbers.
    pub open spec fn is_placed(&self) -> bool {
        &&& self.location matches Some(location)
        &&& location.origin.x <= i32::MAX
        &&& location.origin.y <= i32::MAX
        &&& self.size.fits_i32()
    }

    /// The rectangle that the task draws to, in its layer.
    pub open spec fn spec_target_rect(&self) -> DeviceIntRect {
        DeviceIntRect {
            origin: DeviceIntPoint {
                x: self.location->0.origin.x as i32,
                y: self.location->0.origin.y as i32,
            },
            size: DeviceIntSize { width: self.size.width as i32, height: self.size.height as i32 },
        }
    }

    /// The rectangle that the task draws to, and the layer that holds it.
    pub fn get_target_rect(&self) -> (r: (DeviceIntRect, RenderTargetIndex))
        requires
            self.is_placed(),
        ensures
            r.0 == self.spec_target_rect(),
            r.1 == self.location->0.target_index,
    {
        match self.location {
            Some(location) => (
                DeviceIntRect {
                    origin: DeviceIntPoint {
                        x: location.origin.x as i32,
                        y: location.origin.y as i32,
                    },
                    size: DeviceIntSize {
                        width: self.size.width as i32,
                        height: self.size.height as i32,
                    },
                },
                location.target_index,
            ),
            None => (
                DeviceIntRect {
                    origin: DeviceIntPoint { x: 0, y: 0 },
                    size: DeviceIntSize { width: 0, height: 0 },
                },
                RenderTargetIndex(0),
            ),
        }
    }
}

/// The twelve numbers that shaders read for one render task.
#[derive(Clone, Copy, Debug, PartialEq, Eq)]
pub struct RenderTaskData {
    pub data: [F32Bits; 12],
}

/// All render tasks of one frame. A task's dependencies are tasks that were
/// added before it, so the graph has no cycle.
#[derive(Debug, PartialEq, Eq)]
pub struct RenderTaskTree {
    pub tasks: Vec<RenderTask>,
    /// What shaders read for each task, in the order of the tasks.
    pub task_data: Vec<RenderTaskData>,
}

/// Every dependency of every task comes before the task.
pub open spec fn is_dag(tasks: Seq<RenderTask>) -> bool {
    forall|t: int, j: int|
        0 <= t < tasks.len() && 0 <= j < tasks[t].children@.len() ==> (
        #[trigger] tasks[t].children@[j]).0 < t
}

/// The largest of `1 + pass` over the first `k` dependencies of task `t`;
/// zero when there are none.
pub open spec fn children_pass(tasks: Seq<RenderTask>, t: nat, k: nat) -> nat
    decreases t, k,
{
    if k == 0 {
        0
    } else {
        let child = tasks[t as int].children@[k - 1].0 as nat;
        let rest = children_pass(tasks, t, (k - 1) as nat);
        let via = if child < t {
            task_pass(tasks, child) + 1
        } else {
            0
        };
        if via > rest {
            via
        } else {
            rest
        }
    }
}

/// The pass of task `t`: zero for a task without dependencies, otherwise
/// one more than the latest pass among its dependencies.
pub open spec fn task_pass(tasks: Seq<RenderTask>, t: nat) -> nat
    decreases t, tasks[t as int].children@.len() + 1,
{
    children_pass(tasks, t, tasks[t as int].children@.len())
}

/// The number of passes that the first `n` tasks need: one more than their
/// latest pass, and none when there is no task.
pub open spec fn pass_count(tasks: Seq<RenderTask>, n: nat) -> nat
    decreases n,
{
    if n == 0 {
        0
    } else {
        let rest = pass_count(tasks, (n - 1) as nat);
        let here = task_pass(tasks, (n - 1) as nat) + 1;
        if here > rest {
            here
        } else {
            rest
        }
    }
}

/// The pass of a task is at most its position in the arena.
pub proof fn lemma_pass_at_most_index(tasks: Seq<RenderTask>, t: nat)
    ensures
        task_pass(tasks, t) <= t,
    decreases t, tasks[t as int].children@.len() + 1,
{
    lemma_children_pass_at_most_index(tasks, t, tasks[t as int].children@.len());
}

/// The pass computed from any prefix of the dependencies of a task is at
/// most the task's position in the arena.
pub proof fn lemma_children_pass_at_most_index(tasks: Seq<RenderTask>, t: nat, k: nat)
    ensures
        children_pass(tasks, t, k) <= t,
    decreases t, k,
{
    if k > 0 {
        lemma_children_pass_at_most_index(tasks, t, (k - 1) as nat);
        let child = tasks[t as int].children@[k - 1].0 as nat;
        if child < t {
            lemma_pass_at_most_index(tasks, child);
        }
    }
}

/// The pass computed from the first `k` dependencies is later than the
/// pass of each of them.
pub proof fn lemma_children_pass_bounds(tasks: Seq<RenderTask>, t: nat, k: nat, j: nat)
    requires
        j < k,
        (tasks[t as int].children@[j as int].0 as nat) < t,
    ensures
        task_pass(tasks, tasks[t as int].children@[j as int].0 as nat) < children_pass(tasks, t, k),
    decreases k,
{
    if j < k - 1 {
        lemma_children_pass_bounds(tasks, t, (k - 1) as nat, j);
    }
}

/// Pass ordering: in a graph without cycles, every dependency of a task is
/// assigned a strictly earlier pass than the task.
pub proof fn lemma_dependency_in_earlier_pass(tasks: Seq<RenderTask>, t: nat, j: nat)
    requires
        is_dag(tasks),
        t < tasks.len(),
        j < tasks[t as int].children@.len(),
    ensures
        task_pass(tasks, tasks[t as int].children@[j as int].0 as nat) < task_pass(tasks, t),
{
    assert(tasks[t as int].children@[j as int].0 < t);
    lemma_children_pass_bounds(tasks, t, tasks[t as int].children@.len(), j);
}

/// Every one of the first `n` tasks runs in a pass below the pass count.
pub proof fn lemma_pass_below_count(tasks: Seq<RenderTask>, n: nat, t: nat)
    requires
        t < n,
    ensures
        task_pass(tasks, t) < pass_count(tasks, n),
    decreases n,
{
    if t < n - 1 {
        lemma_pass_below_count(tasks, (n - 1) as nat, t);
    }
}

impl RenderTaskTree {
    /// Every dependency of every task comes before the task.
    pub open spec fn wf(&self) -> bool {
        is_dag(self.tasks@)
    }

    /// A tree without tasks.
    pub fn new() -> (tree: RenderTaskTree)
        ensures
            tree.wf(),
            tree.tasks@.len() == 0,
            tree.task_data@.len() == 0,
    {
        RenderTaskTree { tasks: Vec::new(), task_data: Vec::new() }
    }

    /// Adds a task whose dependencies are all in the tree already and
    /// returns its name; a task that names a dependency that does not exist
    /// yet is refused, and the tree stays as it was.
    pub fn add(&mut self, task: RenderTask) -> (id: Option<RenderTaskId>)
        requires
            old(self).wf(),
        ensures
            final(self).wf(),
            final(self).task_data@ == old(self).task_data@,
            id is Some <==> forall|j: int|
                0 <= j < task.children@.len() ==> (#[trigger] task.children@[j]).0 < old(
                    self,
                ).tasks@.len(),
            id is Some ==> id == Some(RenderTaskId(old(self).tasks@.len() as usize))
                && final(self).tasks@ == old(self).tasks@.push(task),
            id is None ==> final(self).tasks@ == old(self).tasks@,
    {
        let n = self.tasks.len();
        let mut j: usize = 0;
        while j < task.children.len()
            invariant
                j <= task.children@.len(),
                *self == *old(self),
                self.wf(),
                n == self.tasks@.len(),
                forall|k: int| 0 <= k < j ==> (#[trigger] task.children@[k]).0 < n,
            decreases task.children@.len() - j,
        {
            if task.children[j].0 >= n {
                return None;
            }
            j += 1;
        }
        self.tasks.push(task);
        assert(is_dag(self.tasks@)) by {
            assert forall|t: int, k: int|
                0 <= t < self.tasks@.len() && 0 <= k < self.tasks@[t].children@.len() implies (
            #[trigger] self.tasks@[t].children@[k]).0 < t by {
                if t < n {
                    assert(self.tasks@[t] == old(self).tasks@[t]);
                }
            }
        }
        Some(RenderTaskId(n))
    }

    /// The pass of every task, in the order of the tasks: zero for a task
    /// without dependencies, otherwise one more than the latest pass among
    /// its dependencies.
    pub fn assign_passes(&self) -> (passes: Vec<usize>)
        requires
            self.wf(),
        ensures
            passes@.len() == self.tasks@.len(),
            forall|t: int|
                0 <= t < passes@.len() ==> #[trigger] passes@[t] == task_pass(self.tasks@, t as nat),
    {
        let mut passes: Vec<usize> = Vec::new();
        let mut t: usize = 0;
        while t < self.tasks.len()
            invariant
                t <= self.tasks@.len(),
                self.wf(),
                passes@.len() == t,
                forall|i: int|
                    0 <= i < t ==> #[trigger] passes@[i] == task_pass(self.tasks@, i as nat),
            decreases self.tasks@.len() - t,
        {
            let task = &self.tasks[t];
            let mut pass: usize = 0;
            let mut k: usize = 0;
            while k < task.children.len()
                invariant
                    k <= task.children@.len(),
                    self.wf(),
                    t < self.tasks@.len(),
                    *task == self.tasks@[t as int],
                    passes@.len() == t,
                    forall|i: int|
                        0 <= i < t ==> #[trigger] passes@[i] == task_pass(self.tasks@, i as nat),
                    pass == children_pass(self.tasks@, t as nat, k as nat),
                decreases task.children@.len() - k,
            {
                let child = task.children[k].0;
                assert(self.tasks@[t as int].children@[k as int].0 < t);
                proof {
                    lemma_pass_at_most_index(self.tasks@, child as nat);
                }
                let via = passes[child] + 1;
                if via > pass {
                    pass = via;
                }
                k += 1;
            }
            passes.push(pass);
            t += 1;
        }
        passes
    }

    /// The number of passes that the tree needs: none for an empty tree,
    /// otherwise one more than the latest pass of any task.
    pub fn pass_count(&self) -> (n: usize)
        requires
            self.wf(),
        ensures
            n == pass_count(self.tasks@, self.tasks@.len()),
    {
        let passes = self.assign_passes();
        let mut n: usize = 0;
        let mut t: usize = 0;
        while t < passes.len()
            invariant
                t <= passes@.len(),
                passes@.len() == self.tasks@.len(),
                forall|i: int|
                    0 <= i < passes@.len() ==> #[trigger] passes@[i] == task_pass(
                        self.tasks@,
                        i as nat,
                    ),
                n == pass_count(self.tasks@, t as nat),
            decreases passes@.len() - t,
        {
            proof {
                lemma_pass_at_most_index(self.tasks@, t as nat);
            }
            let here = passes[t] + 1;
            if here > n {
                n = here;
            }
            t += 1;
        }
        n
    }
}

} // verus!
