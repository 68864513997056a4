use wasm_weight::collect::{find_lockfile, merge};
use wasm_weight::error::CollectError;
use wasm_weight::model::{Benchmark, Input, Output};
use wasm_weight::record::{
    artifact_kind, command_output, compressed_size, dist_sizes, rustc_commit_hash, ArtifactKind, DistFile,
    DistSizes,
};
use wasm_weight::runner::{wasm_pack_artifacts, Context, Step};
use wasm_weight::tasks::Task;

fn bench(name: &str, bytes: u64) -> Benchmark {
    let mut b = Benchmark::new(name);
    b.add_cargo_outputs(bytes, bytes / 2);
    b
}

#[test]
fn new_benchmark_is_empty() {
    let b = Benchmark::new("twiggy");
    assert_eq!(b.name, "twiggy");
    assert!(b.inputs.is_empty());
    assert!(b.outputs.is_empty());
}

#[test]
fn merge_of_two_documents_concatenates() {
    let d1 = vec![bench("a", 10), bench("b", 20)];
    let d2 = vec![bench("a", 30)];
    let merged = merge(vec![d1.clone(), d2.clone()]);
    assert_eq!(merged.len(), d1.len() + d2.len());
    assert_eq!(merged[0], d1[0]);
    assert_eq!(merged[1], d1[1]);
    assert_eq!(merged[2], d2[0]);
}

#[test]
fn merge_of_nothing_is_empty() {
    assert!(merge(Vec::new()).is_empty());
    assert!(merge(vec![Vec::new(), Vec::new()]).is_empty());
}

#[test]
fn unknown_benchmark_is_refused() {
    let cx = Context::new("/tmp/w");
    let names = vec!["twiggy".to_string(), "nope".to_string(), "also-nope".to_string()];
    assert_eq!(
        cx.measure(&names),
        Err(CollectError::UnknownBenchmark { name: "nope".to_string() })
    );
}

#[test]
fn known_benchmarks_are_planned_in_order() {
    let cx = Context::new("/tmp/w");
    let names = vec![
        "squoosh_rotate".to_string(),
        "twiggy".to_string(),
        "rust_webpack_template".to_string(),
    ];
    let plan = cx.measure(&names).unwrap();
    assert_eq!(plan.len(), 3);
    assert_eq!(plan[0].name, "squoosh-rotate");
    assert_eq!(plan[0].url, "https://github.com/GoogleChromeLabs/squoosh");
    assert_eq!(plan[0].checkout, "/tmp/w/squoosh-rotate");
    assert_eq!(
        plan[0].steps,
        vec![Step::Cargo {
            manifest_dir: "/tmp/w/squoosh-rotate/codecs/rotate".to_string(),
            crate_name: "rotate".to_string(),
        }]
    );
    assert_eq!(plan[1], cx.twiggy());
    assert_eq!(plan[2].steps.len(), 3);
    assert_eq!(
        plan[2].steps[1],
        Step::NpmInstall { root: "/tmp/w/rust-webpack-template".to_string() }
    );
    assert_eq!(
        plan[2].steps[2],
        Step::Webpack { root: "/tmp/w/rust-webpack-template".to_string() }
    );
}

#[test]
fn twiggy_recipe() {
    let r = Context::new("/tmp/w").twiggy();
    assert_eq!(r.name, "twiggy");
    assert_eq!(r.url, "https://github.com/rustwasm/twiggy");
    assert_eq!(r.checkout, "/tmp/w/twiggy");
    assert_eq!(
        r.steps,
        vec![Step::WasmPack {
            crate_name: "twiggy_wasm_api".to_string(),
            dir: "/tmp/w/twiggy/wasm-api".to_string(),
        }]
    );
}

#[test]
fn other_recipes() {
    let cx = Context::new("/tmp/w");
    assert_eq!(
        cx.dodrio_todomvc().steps,
        vec![Step::WasmPack {
            crate_name: "dodrio_todomvc".to_string(),
            dir: "/tmp/w/dodrio-todomvc/examples/todomvc".to_string(),
        }]
    );
    assert_eq!(
        cx.source_map_mappings().steps,
        vec![Step::Cargo {
            manifest_dir: "/tmp/w/source-map-mappings/source-map-mappings-wasm-api".to_string(),
            crate_name: "source_map_mappings_wasm_api".to_string(),
        }]
    );
    assert_eq!(
        cx.game_of_life().steps,
        vec![Step::WasmPack {
            crate_name: "wasm_game_of_life".to_string(),
            dir: "/tmp/w/game-of-life".to_string(),
        }]
    );
    assert_eq!(
        cx.rust_webpack_template().steps[0],
        Step::WasmPack {
            crate_name: "rust_webpack".to_string(),
            dir: "/tmp/w/rust-webpack-template/crate".to_string(),
        }
    );
}

#[test]
fn artifact_paths() {
    let cx = Context::new("/tmp/w");
    assert_eq!(cx.cargo_target_dir(), "/tmp/w/target");
    assert_eq!(
        cx.cargo_artifact("rotate"),
        "/tmp/w/target/wasm32-unknown-unknown/release/rotate.wasm"
    );
    let (js, wasm) = wasm_pack_artifacts("/x/crate", "rust_webpack");
    assert_eq!(js, "/x/crate/pkg/rust_webpack.js");
    assert_eq!(wasm, "/x/crate/pkg/rust_webpack_bg.wasm");
}

#[test]
fn finished_benchmarks_are_kept_in_order() {
    let mut cx = Context::new("/tmp/w");
    assert_eq!(cx.finish_benchmark(Ok(bench("a", 1))), Ok(()));
    assert_eq!(cx.finish_benchmark(Ok(bench("b", 2))), Ok(()));
    assert_eq!(cx.benchmarks.len(), 2);
    assert_eq!(cx.benchmarks[1].name, "b");
}

#[test]
fn a_failed_benchmark_stops_the_batch() {
    let mut cx = Context::new("/tmp/w");
    cx.finish_benchmark(Ok(bench("a", 1))).unwrap();
    let failure = CollectError::Execution {
        command: "\"cargo\" \"build\"".to_string(),
        status: "exit status: 101".to_string(),
    };
    assert_eq!(cx.finish_benchmark(Err(failure.clone())), Err(failure));
    assert_eq!(cx.benchmarks, vec![bench("a", 1)]);
}

const RUSTC_VV: &str = "rustc 1.70.0 (90c541806 2023-05-31)\nbinary: rustc\ncommit-hash: 90c541806f23a127002de5b4038be731ba1458ca\ncommit-date: 2023-05-31\nhost: x86_64-unknown-linux-gnu\n";

#[test]
fn commit_hash_is_found() {
    assert_eq!(
        rustc_commit_hash(RUSTC_VV),
        Some("90c541806f23a127002de5b4038be731ba1458ca".to_string())
    );
    assert_eq!(
        rustc_commit_hash("commit-hash: abc def\r\n"),
        Some("abc".to_string())
    );
}

#[test]
fn commit_hash_missing() {
    assert_eq!(rustc_commit_hash("rustc 1.70.0\nbinary: rustc\n"), None);
    assert_eq!(rustc_commit_hash("commit-hash:    \nnext"), None);
    assert_eq!(rustc_commit_hash("xcommit-hash: abc"), None);
    assert_eq!(rustc_commit_hash(""), None);
}

#[test]
fn rustc_input_is_recorded() {
    let mut b = Benchmark::new("x");
    assert_eq!(b.add_rustc_version(RUSTC_VV), Ok(()));
    assert_eq!(
        b.inputs,
        vec![Input::Rustc { rev: "90c541806f23a127002de5b4038be731ba1458ca".to_string() }]
    );
    let r = b.add_rustc_version("no hash here");
    assert!(matches!(r, Err(CollectError::Configuration { .. })));
    assert_eq!(b.inputs.len(), 1);
}

#[test]
fn git_input_is_trimmed() {
    let mut b = Benchmark::new("x");
    b.add_git("https://example.com/r", "  0123abcd\n");
    assert_eq!(
        b.inputs,
        vec![Input::Git { url: "https://example.com/r".to_string(), rev: "0123abcd".to_string() }]
    );
}

#[test]
fn lockfile_is_normalised_to_json() {
    let mut b = Benchmark::new("x");
    let lock = "[[package]]\nversion = \"0.1.0\"\nname = \"a\"\n";
    assert_eq!(b.add_lockfile(lock), Ok(()));
    assert_eq!(
        b.inputs,
        vec![Input::CargoLock {
            contents: "{\"package\":[{\"name\":\"a\",\"version\":\"0.1.0\"}]}".to_string()
        }]
    );
}

#[test]
fn lockfiles_differing_in_layout_record_the_same_json() {
    let mut a = Benchmark::new("x");
    let mut b = Benchmark::new("x");
    a.add_lockfile("[[package]]\nname = \"a\"\nversion = \"0.1.0\"\n").unwrap();
    b.add_lockfile("[[package]]\nversion=\"0.1.0\"   # pinned\n\nname=\"a\"\n").unwrap();
    assert_eq!(a.inputs, b.inputs);
}

#[test]
fn malformed_lockfile_is_a_parse_error() {
    let mut b = Benchmark::new("x");
    let r = b.add_lockfile("[[package]\nname = ");
    assert!(matches!(r, Err(CollectError::Parse { .. })));
    assert!(b.inputs.is_empty());
}

#[test]
fn other_inputs_in_order() {
    let mut b = Benchmark::new("x");
    b.add_wasm_pack_version("wasm-pack 0.12.1\n".to_string());
    b.add_package_lock("{}".to_string());
    assert_eq!(
        b.inputs,
        vec![
            Input::WasmPack { version: "wasm-pack 0.12.1\n".to_string() },
            Input::PackageJsonLock { contents: "{}".to_string() },
        ]
    );
}

#[test]
fn wasm_pack_outputs_in_order() {
    let mut b = Benchmark::new("x");
    b.add_wasm_pack_outputs(1, 2, 3, 4);
    let names: Vec<&str> = b.outputs.iter().map(|o| o.name.as_str()).collect();
    assert_eq!(
        names,
        vec![
            "wasm-bindgen js shim",
            "wasm-bindgen wasm",
            "wasm-bindgen js shim (gz)",
            "wasm-bindgen wasm (gz)"
        ]
    );
    let bytes: Vec<u64> = b.outputs.iter().map(|o| o.bytes).collect();
    assert_eq!(bytes, vec![1, 2, 3, 4]);
}

#[test]
fn cargo_outputs_in_order() {
    let mut b = Benchmark::new("x");
    b.add_cargo_outputs(100, 40);
    assert_eq!(
        b.outputs,
        vec![
            Output { bytes: 100, name: "wasm".to_string() },
            Output { bytes: 40, name: "wasm (gz)".to_string() },
        ]
    );
}

#[test]
fn webpack_totals_per_extension() {
    assert_eq!(artifact_kind(Some("js")), ArtifactKind::Js);
    assert_eq!(artifact_kind(Some("wasm")), ArtifactKind::Wasm);
    assert_eq!(artifact_kind(Some("html")), ArtifactKind::Other);
    assert_eq!(artifact_kind(None), ArtifactKind::Other);
    let files = vec![
        DistFile { kind: ArtifactKind::Js, bytes: 100, gz_bytes: 40 },
        DistFile { kind: ArtifactKind::Other, bytes: 7, gz_bytes: 0 },
        DistFile { kind: ArtifactKind::Wasm, bytes: 1000, gz_bytes: 400 },
        DistFile { kind: ArtifactKind::Js, bytes: 10, gz_bytes: 8 },
    ];
    let sizes = dist_sizes(&files).unwrap();
    assert_eq!(sizes, DistSizes { js: 110, wasm: 1000, js_gz: 48, wasm_gz: 400 });
    let mut b = Benchmark::new("x");
    b.add_webpack_outputs(&sizes);
    assert_eq!(
        b.outputs,
        vec![
            Output { bytes: 110, name: "webpack-generated js".to_string() },
            Output { bytes: 1000, name: "webpack-generated wasm".to_string() },
            Output { bytes: 48, name: "webpack-generated js (gz)".to_string() },
            Output { bytes: 400, name: "webpack-generated wasm (gz)".to_string() },
        ]
    );
}

#[test]
fn webpack_totals_empty_and_overflow() {
    assert_eq!(
        dist_sizes(&Vec::new()),
        Some(DistSizes { js: 0, wasm: 0, js_gz: 0, wasm_gz: 0 })
    );
    let files = vec![
        DistFile { kind: ArtifactKind::Wasm, bytes: u64::MAX, gz_bytes: 1 },
        DistFile { kind: ArtifactKind::Wasm, bytes: 1, gz_bytes: 1 },
    ];
    assert_eq!(dist_sizes(&files), None);
}

#[test]
fn lockfile_found_two_levels_up() {
    let candidates = vec![None, None, Some("lock".to_string()), Some("outer".to_string())];
    assert_eq!(find_lockfile(&candidates), Ok("lock".to_string()));
}

#[test]
fn lockfile_missing_everywhere() {
    let r = find_lockfile(&vec![None, None, None]);
    assert!(matches!(r, Err(CollectError::Configuration { .. })));
    assert!(matches!(find_lockfile(&Vec::new()), Err(CollectError::Configuration { .. })));
}

#[test]
fn compressed_size_is_deterministic() {
    let data: Vec<u8> = b"hello hello hello hello hello hello".to_vec();
    let a = compressed_size(&data);
    let b = compressed_size(&data);
    assert_eq!(a, b);
    assert!(a > 18);
    assert!(a != data.len() as u64);
}

#[test]
fn compressed_size_of_empty_input() {
    // gzip header and trailer around an empty deflate stream
    let n = compressed_size(&[]);
    assert!(n >= 18 && n <= 25);
}

#[test]
fn compressed_size_of_incompressible_input() {
    let mut x: u32 = 12345;
    let mut data = Vec::new();
    for _ in 0..4096 {
        x = x.wrapping_mul(1664525).wrapping_add(1013904223);
        data.push((x >> 24) as u8);
    }
    let n = compressed_size(&data);
    assert!(n > 0 && n <= data.len() as u64 + 64);
}

#[test]
fn command_outcomes() {
    assert_eq!(
        command_output("git".to_string(), true, "exit status: 0".to_string(), "abc\n".to_string()),
        Ok("abc\n".to_string())
    );
    assert_eq!(
        command_output("git".to_string(), false, "exit status: 1".to_string(), "abc".to_string()),
        Err(CollectError::Execution {
            command: "git".to_string(),
            status: "exit status: 1".to_string()
        })
    );
}

#[test]
fn tasks_of_a_packaging_build() {
    let cx = Context::new("/tmp/w");
    let tasks = cx.tasks(&cx.twiggy());
    assert_eq!(
        tasks,
        vec![
            Task::Clone {
                url: "https://github.com/rustwasm/twiggy".to_string(),
                dst: "/tmp/w/twiggy".to_string()
            },
            Task::Revision {
                url: "https://github.com/rustwasm/twiggy".to_string(),
                dir: "/tmp/w/twiggy".to_string()
            },
            Task::WasmPackVersion,
            Task::RustcVersion,
            Task::WasmPackBuild {
                dir: "/tmp/w/twiggy/wasm-api".to_string(),
                target_dir: "/tmp/w/target".to_string()
            },
            Task::Lockfile { dir: "/tmp/w/twiggy/wasm-api".to_string() },
            Task::WasmPackSizes {
                js: "/tmp/w/twiggy/wasm-api/pkg/twiggy_wasm_api.js".to_string(),
                wasm: "/tmp/w/twiggy/wasm-api/pkg/twiggy_wasm_api_bg.wasm".to_string()
            },
        ]
    );
}

#[test]
fn tasks_of_compiler_and_bundler_builds() {
    let cx = Context::new("/tmp/w");
    let tasks = cx.tasks(&cx.squoosh_rotate());
    let wasm = "/tmp/w/target/wasm32-unknown-unknown/release/rotate.wasm".to_string();
    assert_eq!(
        tasks[2..],
        [
            Task::RustcVersion,
            Task::CargoBuild {
                dir: "/tmp/w/squoosh-rotate/codecs/rotate".to_string(),
                target_dir: "/tmp/w/target".to_string()
            },
            Task::Lockfile { dir: "/tmp/w/squoosh-rotate/codecs/rotate".to_string() },
            Task::Strip { wasm: wasm.clone() },
            Task::CargoSizes { wasm },
        ]
    );
    let tasks = cx.tasks(&cx.rust_webpack_template());
    assert_eq!(tasks.len(), 2 + 5 + 2 + 2);
    assert_eq!(
        tasks[7..],
        [
            Task::NpmInstall { root: "/tmp/w/rust-webpack-template".to_string() },
            Task::PackageLock {
                path: "/tmp/w/rust-webpack-template/package-lock.json".to_string()
            },
            Task::NpmBuild {
                root: "/tmp/w/rust-webpack-template".to_string(),
                out_dir: "/tmp/w/rust-webpack-template/dist".to_string(),
                target_dir: "/tmp/w/target".to_string()
            },
            Task::DistSizes { dir: "/tmp/w/rust-webpack-template/dist".to_string() },
        ]
    );
}
