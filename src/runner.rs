use vstd::prelude::*;
use crate::text::{join_path, path_join, same_text};
use crate::error::CollectError;
use crate::model::Benchmark;

verus! {

/// One build step of a benchmark, with the directories it works in.
#[derive(Clone, Debug, PartialEq, Eq)]
pub enum Step {
    /// `wasm-pack build` in `dir`; the artifacts are named after `crate_name`.
    WasmPack { crate_name: String, dir: String },
    /// `cargo build --release` for the wasm target in `manifest_dir`, then strip.
    Cargo { manifest_dir: String, crate_name: String },
    /// `npm install` in `root`, unless its dependency cache exists.
    NpmInstall { root: String },
    /// The bundler's production build in `root`, measured from its output directory.
    Webpack { root: String },
}

/// What to fetch and build for one benchmark.
#[derive(Clone, Debug, PartialEq, Eq)]
pub struct Recipe {
    /// Name under which the benchmark is recorded.
    pub name: String,
    /// Repository to clone.
    pub url: String,
    /// Where the working copy lives.
    pub checkout: String,
    /// Build steps, in order.
    pub steps: Vec<Step>,
}

/// A measurement run: its scratch directory and the benchmarks completed so far.
pub struct Context {
    pub tmp: String,
    pub benchmarks: Vec<Benchmark>,
}

pub open spec fn wasm_pack_step(s: Step, crate_name: Seq<char>, dir: Seq<char>) -> bool {
    s matches Step::WasmPack { crate_name: c, dir: d } && c@ == crate_name && d@ == dir
}

pub open spec fn cargo_step(s: Step, manifest_dir: Seq<char>, crate_name: Seq<char>) -> bool {
    s matches Step::Cargo { manifest_dir: d, crate_name: c } && d@ == manifest_dir && c@
        == crate_name
}

pub open spec fn npm_step(s: Step, root: Seq<char>) -> bool {
    s matches Step::NpmInstall { root: d } && d@ == root
}

pub open spec fn webpack_step(s: Step, root: Seq<char>) -> bool {
    s matches Step::Webpack { root: d } && d@ == root
}

/// The recipe's name and url are the given ones, and it checks out into
/// `tmp` joined with its name.
pub open spec fn recipe_head(r: Recipe, tmp: Seq<char>, name: Seq<char>, url: Seq<char>) -> bool {
    r.name@ == name && r.url@ == url && r.checkout@ == path_join(tmp, name)
}

pub open spec fn twiggy_recipe(r: Recipe, tmp: Seq<char>) -> bool {
    &&& recipe_head(r, tmp, "twiggy"@, "https://github.com/rustwasm/twiggy"@)
    &&& r.steps@.len() == 1
    &&& wasm_pack_step(r.steps@[0], "twiggy_wasm_api"@, path_join(r.checkout@, "wasm-api"@))
}

pub open spec fn dodrio_todomvc_recipe(r: Recipe, tmp: Seq<char>) -> bool {
    &&& recipe_head(r, tmp, "dodrio-todomvc"@, "https://github.com/fitzgen/dodrio"@)
    &&& r.steps@.len() == 1
    &&& wasm_pack_step(r.steps@[0], "dodrio_todomvc"@, path_join(r.checkout@, "examples/todomvc"@))
}

pub open spec fn source_map_mappings_recipe(r: Recipe, tmp: Seq<char>) -> bool {
    &&& recipe_head(
        r,
        tmp,
        "source-map-mappings"@,
        "https://github.com/fitzgen/source-map-mappings"@,
    )
    &&& r.steps@.len() == 1
    &&& cargo_step(
        r.steps@[0],
        path_join(r.checkout@, "source-map-mappings-wasm-api"@),
        "source_map_mappings_wasm_api"@,
    )
}

pub open spec fn game_of_life_recipe(r: Recipe, tmp: Seq<char>) -> bool {
    &&& recipe_head(r, tmp, "game-of-life"@, "https://github.com/rustwasm/wasm_game_of_life"@)
    &&& r.steps@.len() == 1
    &&& wasm_pack_step(r.steps@[0], "wasm_game_of_life"@, r.checkout@)
}

pub open spec fn rust_webpack_template_recipe(r: Recipe, tmp: Seq<char>) -> bool {
    &&& recipe_head(
        r,
        tmp,
        "rust-webpack-template"@,
        "https://github.com/rustwasm/rust-webpack-template"@,
    )
    &&& r.steps@.len() == 3
    &&& wasm_pack_step(r.steps@[0], "rust_webpack"@, path_join(r.checkout@, "crate"@))
    &&& npm_step(r.steps@[1], r.checkout@)
    &&& webpack_step(r.steps@[2], r.checkout@)
}

pub open spec fn squoosh_rotate_recipe(r: Recipe, tmp: Seq<char>) -> bool {
    &&& recipe_head(r, tmp, "squoosh-rotate"@, "https://github.com/GoogleChromeLabs/squoosh"@)
    &&& r.steps@.len() == 1
    &&& cargo_step(r.steps@[0], path_join(r.checkout@, "codecs/rotate"@), "rotate"@)
}

/// The recipe that a requested benchmark key stands for.
pub open spec fn recipe_for(r: Recipe, tmp: Seq<char>, key: Seq<char>) -> bool {
    if key == "twiggy"@ {
        twiggy_recipe(r, tmp)
    } else if key == "dodrio_todomvc"@ {
        dodrio_todomvc_recipe(r, tmp)
    } else if key == "source_map_mappings"@ {
        source_map_mappings_recipe(r, tmp)
    } else if key == "game_of_life"@ {
        game_of_life_recipe(r, tmp)
    } else if key == "rust_webpack_template"@ {
        rust_webpack_template_recipe(r, tmp)
    } else if key == "squoosh_rotate"@ {
        squoosh_rotate_recipe(r, tmp)
    } else {
        false
    }
}

pub open spec fn known_benchmark(key: Seq<char>) -> bool {
    key == "twiggy"@ || key == "dodrio_todomvc"@ || key == "source_map_mappings"@ || key
        == "game_of_life"@ || key == "rust_webpack_template"@ || key == "squoosh_rotate"@
}

impl Context {
    /// A run in the scratch directory `tmp`, with nothing measured yet.
    pub fn new(tmp: &str) -> (r: Context)
        ensures
            r.tmp@ == tmp@,
            r.benchmarks@.len() == 0,
    {
        Context { tmp: tmp.to_string(), benchmarks: Vec::new() }
    }

    /// The target directory shared by all builds of the run.
    pub fn cargo_target_dir(&self) -> (r: String)
        ensures
            r@ == path_join(self.tmp@, "target"@),
    {
        join_path(&self.tmp, "target")
    }

    /// Where `cargo_build` leaves the release wasm binary of `crate_name`.
    pub fn cargo_artifact(&self, crate_name: &str) -> (r: String)
        ensures
            r@ == path_join(
                path_join(
                    path_join(path_join(self.tmp@, "target"@), "wasm32-unknown-unknown"@),
                    "release"@,
                ),
                crate_name@ + ".wasm"@,
            ),
    {
        let target = self.cargo_target_dir();
        let platform = join_path(&target, "wasm32-unknown-unknown");
        let release = join_path(&platform, "release");
        let file = crate_name.to_string().concat(".wasm");
        join_path(&release, &file)
    }

    fn recipe(&self, name: &str, url: &str) -> (r: Recipe)
        ensures
            recipe_head(r, self.tmp@, name@, url@),
            r.steps@.len() == 0,
    {
        Recipe {
            name: name.to_string(),
            url: url.to_string(),
            checkout: join_path(&self.tmp, name),
            steps: Vec::new(),
        }
    }

    pub fn twiggy(&self) -> (r: Recipe)
        ensures
            twiggy_recipe(r, self.tmp@),
    {
        let mut r = self.recipe("twiggy", "https://github.com/rustwasm/twiggy");
        let dir = join_path(&r.checkout, "wasm-api");
        r.steps.push(Step::WasmPack { crate_name: "twiggy_wasm_api".to_string(), dir });
        r
    }

    pub fn dodrio_todomvc(&self) -> (r: Recipe)
        ensures
            dodrio_todomvc_recipe(r, self.tmp@),
    {
        let mut r = self.recipe("dodrio-todomvc", "https://github.com/fitzgen/dodrio");
        let dir = join_path(&r.checkout, "examples/todomvc");
        r.steps.push(Step::WasmPack { crate_name: "dodrio_todomvc".to_string(), dir });
        r
    }

    pub fn source_map_mappings(&self) -> (r: Recipe)
        ensures
            source_map_mappings_recipe(r, self.tmp@),
    {
        let mut r = self.recipe(
            "source-map-mappings",
            "https://github.com/fitzgen/source-map-mappings",
        );
        let manifest_dir = join_path(&r.checkout, "source-map-mappings-wasm-api");
        r.steps.push(
            Step::Cargo { manifest_dir, crate_name: "source_map_mappings_wasm_api".to_string() },
        );
        r
    }

    pub fn game_of_life(&self) -> (r: Recipe)
        ensures
            game_of_life_recipe(r, self.tmp@),
    {
        let mut r = self.recipe("game-of-life", "https://github.com/rustwasm/wasm_game_of_life");
        let dir = r.checkout.clone();
        r.steps.push(Step::WasmPack { crate_name: "wasm_game_of_life".to_string(), dir });
        r
    }

    pub fn rust_webpack_template(&self) -> (r: Recipe)
        ensures
            rust_webpack_template_recipe(r, self.tmp@),
    {
        let mut r = self.recipe(
            "rust-webpack-template",
            "https://github.com/rustwasm/rust-webpack-template",
        );
        let dir = join_path(&r.checkout, "crate");
        r.steps.push(Step::WasmPack { crate_name: "rust_webpack".to_string(), dir });
        r.steps.push(Step::NpmInstall { root: r.checkout.clone() });
        r.steps.push(Step::Webpack { root: r.checkout.clone() });
        r
    }

    pub fn squoosh_rotate(&self) -> (r: Recipe)
        ensures
            squoosh_rotate_recipe(r, self.tmp@),
    {
        let mut r = self.recipe("squoosh-rotate", "https://github.com/GoogleChromeLabs/squoosh");
        let manifest_dir = join_path(&r.checkout, "codecs/rotate");
        r.steps.push(Step::Cargo { manifest_dir, crate_name: "rotate".to_string() });
        r
    }

    /// The recipes of the requested benchmarks, in the order requested; the
    /// first unknown name fails the whole request before anything is built.
    pub fn measure(&self, benchmarks: &Vec<String>) -> (r: Result<Vec<Recipe>, CollectError>)
        ensures
            r is Ok <==> forall|i: int|
                0 <= i < benchmarks@.len() ==> known_benchmark(#[trigger] benchmarks@[i]@),
            r matches Ok(v) ==> v@.len() == benchmarks@.len() && forall|i: int|
                0 <= i < v@.len() ==> recipe_for(#[trigger] v@[i], self.tmp@, benchmarks@[i]@),
            r matches Err(e) ==> exists|i: int|
                0 <= i < benchmarks@.len() && !known_benchmark(benchmarks@[i]@) && (forall|j: int|
                    0 <= j < i ==> known_benchmark(benchmarks@[j]@)) && (e matches CollectError::UnknownBenchmark {
                    name,
                } && name@ == benchmarks@[i]@),
    {
        let mut plan: Vec<Recipe> = Vec::new();
        let mut i: usize = 0;
        while i < benchmarks.len()
            invariant
                i <= benchmarks@.len(),
                plan@.len() == i,
                forall|k: int| 0 <= k < i ==> known_benchmark(benchmarks@[k]@),
                forall|k: int| 0 <= k < i ==> recipe_for(#[trigger] plan@[k], self.tmp@, benchmarks@[k]@),
            decreases benchmarks@.len() - i,
        {
            let key = benchmarks[i].as_str();
            let r = if same_text(key, "twiggy") {
                self.twiggy()
            } else if same_text(key, "dodrio_todomvc") {
                self.dodrio_todomvc()
            } else if same_text(key, "source_map_mappings") {
                self.source_map_mappings()
            } else if same_text(key, "game_of_life") {
                self.game_of_life()
            } else if same_text(key, "rust_webpack_template") {
                self.rust_webpack_template()
            } else if same_text(key, "squoosh_rotate") {
                self.squoosh_rotate()
            } else {
                return Err(CollectError::UnknownBenchmark { name: benchmarks[i].clone() });
            };
            plan.push(r);
            i += 1;
        }
        Ok(plan)
    }

    /// Ends one benchmark of the batch. A completed benchmark is appended to
    /// the results; a failure is handed back with the results left as they
    /// were, and the batch stops there: nothing of it is written.
    pub fn finish_benchmark(&mut self, outcome: Result<Benchmark, CollectError>)
        -> (r: Result<(), CollectError>)
        ensures
            final(self).tmp == old(self).tmp,
            outcome matches Ok(b) ==> r is Ok && final(self).benchmarks@
                == old(self).benchmarks@.push(b),
            outcome matches Err(e) ==> r == Err::<(), CollectError>(e) && final(self).benchmarks
                == old(self).benchmarks,
    {
        match outcome {
            Ok(b) => {
                self.benchmarks.push(b);
                Ok(())
            },
            Err(e) => Err(e),
        }
    }
}

/// Where `wasm-pack build` in `dir` leaves the JavaScript shim and the wasm
/// binary of `crate_name`.
pub fn wasm_pack_artifacts(dir: &str, crate_name: &str) -> (r: (String, String))
    ensures
        r.0@ == path_join(path_join(dir@, "pkg"@), crate_name@ + ".js"@),
        r.1@ == path_join(path_join(dir@, "pkg"@), crate_name@ + "_bg.wasm"@),
{
    let pkg = join_path(dir, "pkg");
    let js = join_path(&pkg, &crate_name.to_string().concat(".js"));
    let wasm = join_path(&pkg, &crate_name.to_string().concat("_bg.wasm"));
    (js, wasm)
}

} // verus!
