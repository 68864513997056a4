use vstd::prelude::*;
use crate::text::{join_path, path_join};
use crate::runner::{wasm_pack_artifacts, Context, Recipe, Step};

verus! {

/// One action of a benchmark run. Each one that records something appends
/// to the benchmark, so the order of the tasks is the order of its record.
#[derive(Clone, Debug, PartialEq, Eq)]
pub enum Task {
    /// Clone `url` into `dst`, unless `dst` already exists (it is then reused
    /// as it is, without an update).
    Clone { url: String, dst: String },
    /// Record the revision checked out in `dir` (`git rev-parse HEAD`).
    Revision { url: String, dir: String },
    /// Record the version line of `wasm-pack --version`.
    WasmPackVersion,
    /// Record the toolchain commit from `rustc -vV`.
    RustcVersion,
    /// `wasm-pack build` in `dir`, building into `target_dir`.
    WasmPackBuild { dir: String, target_dir: String },
    /// `cargo build --release --target wasm32-unknown-unknown` in `dir`,
    /// building into `target_dir`.
    CargoBuild { dir: String, target_dir: String },
    /// Record the nearest `Cargo.lock` at or above `dir`.
    Lockfile { dir: String },
    /// Remove the debug and name sections from the wasm binary `wasm`.
    Strip { wasm: String },
    /// Record the raw and compressed sizes of a packaging-tool build.
    WasmPackSizes { js: String, wasm: String },
    /// Record the raw and compressed sizes of the wasm binary `wasm`.
    CargoSizes { wasm: String },
    /// `npm install` in `root`, unless its `node_modules` directory exists.
    NpmInstall { root: String },
    /// Record the JavaScript lockfile at `path`.
    PackageLock { path: String },
    /// The bundler's production build in `root`, writing to `out_dir` and
    /// building into `target_dir`.
    NpmBuild { root: String, out_dir: String, target_dir: String },
    /// Record the summed sizes of the `.js` and `.wasm` files in `dir`.
    DistSizes { dir: String },
}

/// A task with its paths as character sequences.
pub enum TaskView {
    Clone { url: Seq<char>, dst: Seq<char> },
    Revision { url: Seq<char>, dir: Seq<char> },
    WasmPackVersion,
    RustcVersion,
    WasmPackBuild { dir: Seq<char>, target_dir: Seq<char> },
    CargoBuild { dir: Seq<char>, target_dir: Seq<char> },
    Lockfile { dir: Seq<char> },
    Strip { wasm: Seq<char> },
    WasmPackSizes { js: Seq<char>, wasm: Seq<char> },
    CargoSizes { wasm: Seq<char> },
    NpmInstall { root: Seq<char> },
    PackageLock { path: Seq<char> },
    NpmBuild { root: Seq<char>, out_dir: Seq<char>, target_dir: Seq<char> },
    DistSizes { dir: Seq<char> },
}

impl View for Task {
    type V = TaskView;

    open spec fn view(&self) -> TaskView {
        match self {
            Task::Clone { url, dst } => TaskView::Clone { url: url@, dst: dst@ },
            Task::Revision { url, dir } => TaskView::Revision { url: url@, dir: dir@ },
            Task::WasmPackVersion => TaskView::WasmPackVersion,
            Task::RustcVersion => TaskView::RustcVersion,
            Task::WasmPackBuild { dir, target_dir } => TaskView::WasmPackBuild {
                dir: dir@,
                target_dir: target_dir@,
            },
            Task::CargoBuild { dir, target_dir } => TaskView::CargoBuild {
                dir: dir@,
                target_dir: target_dir@,
            },
            Task::Lockfile { dir } => TaskView::Lockfile { dir: dir@ },
            Task::Strip { wasm } => TaskView::Strip { wasm: wasm@ },
            Task::WasmPackSizes { js, wasm } => TaskView::WasmPackSizes { js: js@, wasm: wasm@ },
            Task::CargoSizes { wasm } => TaskView::CargoSizes { wasm: wasm@ },
            Task::NpmInstall { root } => TaskView::NpmInstall { root: root@ },
            Task::PackageLock { path } => TaskView::PackageLock { path: path@ },
            Task::NpmBuild { root, out_dir, target_dir } => TaskView::NpmBuild {
                root: root@,
                out_dir: out_dir@,
                target_dir: target_dir@,
            },
            Task::DistSizes { dir } => TaskView::DistSizes { dir: dir@ },
        }
    }
}

pub open spec fn views(tasks: Seq<Task>) -> Seq<TaskView> {
    tasks.map_values(|t: Task| t@)
}

/// Where a release build of `crate_name` for the wasm target lands in `target_dir`.
pub open spec fn cargo_wasm_path(target_dir: Seq<char>, crate_name: Seq<char>) -> Seq<char> {
    path_join(
        path_join(path_join(target_dir, "wasm32-unknown-unknown"@), "release"@),
        crate_name + ".wasm"@,
    )
}

/// The tasks of one build step, with `target_dir` as the shared target directory.
pub open spec fn step_tasks(s: Step, target_dir: Seq<char>) -> Seq<TaskView> {
    match s {
        Step::WasmPack { crate_name, dir } => seq![
            TaskView::WasmPackVersion,
            TaskView::RustcVersion,
            TaskView::WasmPackBuild { dir: dir@, target_dir },
            TaskView::Lockfile { dir: dir@ },
            TaskView::WasmPackSizes {
                js: path_join(path_join(dir@, "pkg"@), crate_name@ + ".js"@),
                wasm: path_join(path_join(dir@, "pkg"@), crate_name@ + "_bg.wasm"@),
            },
        ],
        Step::Cargo { manifest_dir, crate_name } => seq![
            TaskView::RustcVersion,
            TaskView::CargoBuild { dir: manifest_dir@, target_dir },
            TaskView::Lockfile { dir: manifest_dir@ },
            TaskView::Strip { wasm: cargo_wasm_path(target_dir, crate_name@) },
            TaskView::CargoSizes { wasm: cargo_wasm_path(target_dir, crate_name@) },
        ],
        Step::NpmInstall { root } => seq![
            TaskView::NpmInstall { root: root@ },
            TaskView::PackageLock { path: path_join(root@, "package-lock.json"@) },
        ],
        Step::Webpack { root } => seq![
            TaskView::NpmBuild { root: root@, out_dir: path_join(root@, "dist"@), target_dir },
            TaskView::DistSizes { dir: path_join(root@, "dist"@) },
        ],
    }
}

/// The tasks of a list of steps, step after step.
pub open spec fn steps_tasks(steps: Seq<Step>, target_dir: Seq<char>) -> Seq<TaskView>
    decreases steps.len(),
{
    if steps.len() == 0 {
        Seq::empty()
    } else {
        steps_tasks(steps.drop_last(), target_dir) + step_tasks(steps.last(), target_dir)
    }
}

/// The tasks of a recipe: fetch the source, record its revision, then the
/// tasks of each step in order.
pub open spec fn recipe_tasks(r: Recipe, target_dir: Seq<char>) -> Seq<TaskView> {
    seq![
        TaskView::Clone { url: r.url@, dst: r.checkout@ },
        TaskView::Revision { url: r.url@, dir: r.checkout@ },
    ] + steps_tasks(r.steps@, target_dir)
}

fn push_task(tasks: &mut Vec<Task>, t: Task)
    ensures
        views(final(tasks)@) == views(old(tasks)@).push(t@),
{
    tasks.push(t);
    assert(views(tasks@) =~= views(old(tasks)@).push(t@));
}

impl Context {
    fn push_step_tasks(&self, step: &Step, tasks: &mut Vec<Task>)
        ensures
            views(final(tasks)@) == views(old(tasks)@) + step_tasks(
                *step,
                path_join(self.tmp@, "target"@),
            ),
    {
        let ghost start = views(tasks@);
        let target_dir = self.cargo_target_dir();
        match step {
            Step::WasmPack { crate_name, dir } => {
                push_task(tasks, Task::WasmPackVersion);
                push_task(tasks, Task::RustcVersion);
                push_task(
                    tasks,
                    Task::WasmPackBuild { dir: dir.clone(), target_dir: target_dir.clone() },
                );
                push_task(tasks, Task::Lockfile { dir: dir.clone() });
                let (js, wasm) = wasm_pack_artifacts(dir, crate_name);
                push_task(tasks, Task::WasmPackSizes { js, wasm });
            },
            Step::Cargo { manifest_dir, crate_name } => {
                push_task(tasks, Task::RustcVersion);
                push_task(
                    tasks,
                    Task::CargoBuild { dir: manifest_dir.clone(), target_dir: target_dir.clone() },
                );
                push_task(tasks, Task::Lockfile { dir: manifest_dir.clone() });
                let wasm = self.cargo_artifact(crate_name);
                push_task(tasks, Task::Strip { wasm: wasm.clone() });
                push_task(tasks, Task::CargoSizes { wasm });
            },
            Step::NpmInstall { root } => {
                push_task(tasks, Task::NpmInstall { root: root.clone() });
                push_task(tasks, Task::PackageLock { path: join_path(root, "package-lock.json") });
            },
            Step::Webpack { root } => {
                let out_dir = join_path(root, "dist");
                push_task(
                    tasks,
                    Task::NpmBuild { root: root.clone(), out_dir: out_dir.clone(), target_dir },
                );
                push_task(tasks, Task::DistSizes { dir: out_dir });
            },
        }
        assert(views(tasks@) =~= start + step_tasks(*step, path_join(self.tmp@, "target"@)));
    }

    /// Everything to do, in order, to measure the benchmark of `recipe`.
    pub fn tasks(&self, recipe: &Recipe) -> (r: Vec<Task>)
        ensures
            views(r@) == recipe_tasks(*recipe, path_join(self.tmp@, "target"@)),
    {
        let ghost target_dir = path_join(self.tmp@, "target"@);
        let mut tasks: Vec<Task> = Vec::new();
        assert(views(tasks@) =~= Seq::<TaskView>::empty());
        push_task(&mut tasks, Task::Clone { url: recipe.url.clone(), dst: recipe.checkout.clone() });
        push_task(
            &mut tasks,
            Task::Revision { url: recipe.url.clone(), dir: recipe.checkout.clone() },
        );
        let ghost head = views(tasks@);
        let mut i: usize = 0;
        while i < recipe.steps.len()
            invariant
                i <= recipe.steps@.len(),
                target_dir == path_join(self.tmp@, "target"@),
                head == seq![
                    TaskView::Clone { url: recipe.url@, dst: recipe.checkout@ },
                    TaskView::Revision { url: recipe.url@, dir: recipe.checkout@ },
                ],
                views(tasks@) == head + steps_tasks(recipe.steps@.subrange(0, i as int), target_dir),
            decreases recipe.steps@.len() - i,
        {
            self.push_step_tasks(&recipe.steps[i], &mut tasks);
            let ghost prefix = recipe.steps@.subrange(0, i + 1);
            assert(prefix.drop_last() =~= recipe.steps@.subrange(0, i as int));
            assert(views(tasks@) =~= head + steps_tasks(prefix, target_dir));
            i += 1;
        }
        assert(recipe.steps@.subrange(0, i as int) =~= recipe.steps@);
        tasks
    }
}

} // verus!
