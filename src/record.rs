use vstd::prelude::*;
use crate::codec::{
    gzip_encoded_len, gzip_len, toml_accepts, toml_as_json, toml_json_text,
};
use crate::error::CollectError;
use crate::model::{Benchmark, Input, Output};
use crate::text::{has_text_at, is_space, is_space_char, same_text, text_at, trim, trim_of};

verus! {

/// A line of `s` starts at `i` and begins with `commit-hash: `.
pub open spec fn commit_line_at(s: Seq<char>, i: int) -> bool {
    (i == 0 || (0 < i <= s.len() && s[i - 1] == '\n')) && text_at(s, i, "commit-hash: "@)
}

/// The first position at or after `i` where a commit-hash line starts.
pub open spec fn first_commit_line(s: Seq<char>, i: int) -> Option<int>
    decreases s.len() - i,
{
    if i < 0 || i >= s.len() {
        None
    } else if commit_line_at(s, i) {
        Some(i)
    } else {
        first_commit_line(s, i + 1)
    }
}

/// The end of the run of blanks (whitespace other than a line break) from `k`.
pub open spec fn skip_blank(s: Seq<char>, k: int) -> int
    decreases s.len() - k,
{
    if 0 <= k < s.len() && is_space(s[k]) && s[k] != '\n' {
        skip_blank(s, k + 1)
    } else {
        k
    }
}

/// The end of the word (run of non-whitespace) from `k`.
pub open spec fn word_end(s: Seq<char>, k: int) -> int
    decreases s.len() - k,
{
    if 0 <= k < s.len() && !is_space(s[k]) {
        word_end(s, k + 1)
    } else {
        k
    }
}

/// The second whitespace-separated word of the first line that begins with
/// `commit-hash: `, as `rustc -vV` prints it.
pub open spec fn commit_hash_field(s: Seq<char>) -> Option<Seq<char>> {
    match first_commit_line(s, 0) {
        Some(i) => {
            let a = skip_blank(s, i + 13);
            let e = word_end(s, a);
            if a < e {
                Some(s.subrange(a, e))
            } else {
                None
            }
        },
        None => None,
    }
}

pub open spec fn output_is(o: Output, bytes: u64, name: Seq<char>) -> bool {
    o.bytes == bytes && o.name@ == name
}

/// The commit hash in the output of `rustc -vV`, if it has one.
pub fn rustc_commit_hash(text: &str) -> (r: Option<String>)
    ensures
        r matches Some(h) ==> commit_hash_field(text@) == Some(h@),
        r is None ==> commit_hash_field(text@) is None,
{
    let ghost s = text@;
    let n = text.unicode_len();
    let mut i: usize = 0;
    let mut found = false;
    while i < n
        invariant_except_break
            !found,
        invariant
            n == s.len(),
            i <= n,
            s == text@,
            first_commit_line(s, i as int) == first_commit_line(s, 0),
        ensures
            found ==> i < n && commit_line_at(s, i as int),
            !found ==> i == n,
            first_commit_line(s, i as int) == first_commit_line(s, 0),
        decreases n - i,
    {
        if (i == 0 || text.get_char(i - 1) == '\n') && has_text_at(text, i, "commit-hash: ") {
            found = true;
            break;
        }
        i += 1;
    }
    if !found {
        return None;
    }
    assert(first_commit_line(s, 0) == Some(i as int));
    proof {
        reveal_strlit("commit-hash: ");
    }
    let mut a: usize = i + 13;
    while a < n && is_space_char(text.get_char(a)) && text.get_char(a) != '\n'
        invariant
            n == s.len(),
            i + 13 <= a <= n,
            s == text@,
            skip_blank(s, a as int) == skip_blank(s, i + 13),
        decreases n - a,
    {
        a += 1;
    }
    let mut e: usize = a;
    while e < n && !is_space_char(text.get_char(e))
        invariant
            n == s.len(),
            a <= e <= n,
            s == text@,
            skip_blank(s, i + 13) == a,
            word_end(s, e as int) == word_end(s, a as int),
        decreases n - e,
    {
        e += 1;
    }
    if a < e {
        Some(text.substring_char(a, e).to_string())
    } else {
        None
    }
}

/// Whether `n` is the compressed size of `data`: the length of its gzip stream.
pub open spec fn is_compressed_size(data: Seq<u8>, n: u64) -> bool {
    n as nat == gzip_len(data)
}

/// Compressed size of `data`: the length of its gzip stream at the default level.
pub fn compressed_size(data: &[u8]) -> (r: u64)
    ensures
        is_compressed_size(data@, r),
{
    match gzip_encoded_len(data) {
        Ok(n) => n,
        Err(_) => vstd::pervasive::unreached(),
    }
}

/// What a file in the bundler's output directory counts as.
#[derive(Clone, Copy, Debug, PartialEq, Eq, Structural)]
pub enum ArtifactKind {
    Js,
    Wasm,
    Other,
}

/// One file of the bundler's output directory: its kind, its size and, for a
/// `.js` or `.wasm` file, its compressed size.
#[derive(Clone, Copy, Debug, PartialEq, Eq)]
pub struct DistFile {
    pub kind: ArtifactKind,
    pub bytes: u64,
    pub gz_bytes: u64,
}

/// Total sizes of the bundler's JavaScript and wasm output.
#[derive(Clone, Copy, Debug, PartialEq, Eq)]
pub struct DistSizes {
    pub js: u64,
    pub wasm: u64,
    pub js_gz: u64,
    pub wasm_gz: u64,
}

pub open spec fn kind_of_extension(extension: Option<Seq<char>>) -> ArtifactKind {
    match extension {
        Some(e) => if e == "js"@ {
            ArtifactKind::Js
        } else if e == "wasm"@ {
            ArtifactKind::Wasm
        } else {
            ArtifactKind::Other
        },
        None => ArtifactKind::Other,
    }
}

/// Sum over `files` of the raw (or, with `gz`, compressed) sizes of those of `kind`.
pub open spec fn total(files: Seq<DistFile>, kind: ArtifactKind, gz: bool) -> int
    decreases files.len(),
{
    if files.len() == 0 {
        0
    } else {
        let f = files.last();
        total(files.drop_last(), kind, gz) + if f.kind == kind {
            if gz {
                f.gz_bytes as int
            } else {
                f.bytes as int
            }
        } else {
            0
        }
    }
}

pub open spec fn totals_fit(files: Seq<DistFile>) -> bool {
    &&& total(files, ArtifactKind::Js, false) <= u64::MAX
    &&& total(files, ArtifactKind::Wasm, false) <= u64::MAX
    &&& total(files, ArtifactKind::Js, true) <= u64::MAX
    &&& total(files, ArtifactKind::Wasm, true) <= u64::MAX
}

proof fn lemma_total_grows(files: Seq<DistFile>, i: int, j: int, kind: ArtifactKind, gz: bool)
    requires
        0 <= i <= j <= files.len(),
    ensures
        total(files.subrange(0, i), kind, gz) <= total(files.subrange(0, j), kind, gz),
    decreases j - i,
{
    if i < j {
        lemma_total_grows(files, i, j - 1, kind, gz);
        assert(files.subrange(0, j).drop_last() =~= files.subrange(0, j - 1));
    }
}

/// The kind of an output file, from its extension (`js` or `wasm`).
pub fn artifact_kind(extension: Option<&str>) -> (r: ArtifactKind)
    ensures
        r == kind_of_extension(
            match extension {
                Some(e) => Some(e@),
                None => None,
            },
        ),
{
    match extension {
        Some(e) => if same_text(e, "js") {
            ArtifactKind::Js
        } else if same_text(e, "wasm") {
            ArtifactKind::Wasm
        } else {
            ArtifactKind::Other
        },
        None => ArtifactKind::Other,
    }
}

/// Sums the raw and compressed sizes of the JavaScript and the wasm files;
/// `None` where a total does not fit in 64 bits.
pub fn dist_sizes(files: &Vec<DistFile>) -> (r: Option<DistSizes>)
    ensures
        r is Some <==> totals_fit(files@),
        r matches Some(t) ==> t.js == total(files@, ArtifactKind::Js, false) && t.wasm == total(
            files@,
            ArtifactKind::Wasm,
            false,
        ) && t.js_gz == total(files@, ArtifactKind::Js, true) && t.wasm_gz == total(
            files@,
            ArtifactKind::Wasm,
            true,
        ),
{
    let mut t = DistSizes { js: 0, wasm: 0, js_gz: 0, wasm_gz: 0 };
    let mut i: usize = 0;
    while i < files.len()
        invariant
            i <= files@.len(),
            t.js == total(files@.subrange(0, i as int), ArtifactKind::Js, false),
            t.wasm == total(files@.subrange(0, i as int), ArtifactKind::Wasm, false),
            t.js_gz == total(files@.subrange(0, i as int), ArtifactKind::Js, true),
            t.wasm_gz == total(files@.subrange(0, i as int), ArtifactKind::Wasm, true),
        decreases files@.len() - i,
    {
        let f = files[i];
        proof {
            assert(files@.subrange(0, i + 1).drop_last() =~= files@.subrange(0, i as int));
            assert(files@.subrange(0, i + 1).last() == f);
            lemma_total_grows(files@, i + 1, files@.len() as int, f.kind, false);
            lemma_total_grows(files@, i + 1, files@.len() as int, f.kind, true);
            assert(files@.subrange(0, files@.len() as int) =~= files@);
        }
        match f.kind {
            ArtifactKind::Js => {
                match (t.js.checked_add(f.bytes), t.js_gz.checked_add(f.gz_bytes)) {
                    (Some(a), Some(b)) => {
                        t.js = a;
                        t.js_gz = b;
                    },
                    _ => {
                        return None;
                    },
                }
            },
            ArtifactKind::Wasm => {
                match (t.wasm.checked_add(f.bytes), t.wasm_gz.checked_add(f.gz_bytes)) {
                    (Some(a), Some(b)) => {
                        t.wasm = a;
                        t.wasm_gz = b;
                    },
                    _ => {
                        return None;
                    },
                }
            },
            ArtifactKind::Other => {},
        }
        i += 1;
    }
    assert(files@.subrange(0, i as int) =~= files@);
    Some(t)
}

/// The compressed size is deterministic: any two results of `compressed_size`
/// on the same bytes are equal.
pub proof fn lemma_compressed_size_deterministic(data: Seq<u8>)
    ensures
        forall|first: u64, second: u64|
            #[trigger] is_compressed_size(data, first) && #[trigger] is_compressed_size(data, second)
                ==> first == second,
{
}

/// The result of a finished command: what it printed where it succeeded, else
/// an execution error naming the command and its exit status.
pub fn command_output(command: String, success: bool, status: String, stdout: String) -> (r: Result<
    String,
    CollectError,
>)
    ensures
        success ==> r == Ok::<String, CollectError>(stdout),
        !success ==> r == Err::<String, CollectError>(CollectError::Execution { command, status }),
{
    if success {
        Ok(stdout)
    } else {
        Err(CollectError::Execution { command, status })
    }
}

impl Benchmark {
    /// Records the repository and the checked-out revision (`git rev-parse HEAD`
    /// output, trimmed).
    pub fn add_git(&mut self, url: &str, rev_output: &str)
        ensures
            final(self).name == old(self).name,
            final(self).outputs == old(self).outputs,
            final(self).inputs@.len() == old(self).inputs@.len() + 1,
            final(self).inputs@.drop_last() == old(self).inputs@,
            final(self).inputs@.last() matches Input::Git { url: u, rev } && u@ == url@ && rev@
                == trim_of(rev_output@),
    {
        let rev = trim(rev_output);
        self.inputs.push(Input::Git { url: url.to_string(), rev });
        assert(self.inputs@.drop_last() =~= old(self).inputs@);
    }

    /// Records the version line of the packaging tool as it printed it.
    pub fn add_wasm_pack_version(&mut self, version: String)
        ensures
            final(self).name == old(self).name,
            final(self).outputs == old(self).outputs,
            final(self).inputs@ == old(self).inputs@.push(Input::WasmPack { version }),
    {
        self.inputs.push(Input::WasmPack { version });
    }

    /// Records the toolchain commit found in the output of `rustc -vV`; fails,
    /// recording nothing, where that output has no commit hash.
    pub fn add_rustc_version(&mut self, rustc_output: &str) -> (r: Result<(), CollectError>)
        ensures
            final(self).name == old(self).name,
            final(self).outputs == old(self).outputs,
            r is Ok <==> commit_hash_field(rustc_output@) is Some,
            r matches Err(e) ==> e is Configuration && final(self).inputs == old(self).inputs,
            r is Ok ==> final(self).inputs@.len() == old(self).inputs@.len() + 1,
            r is Ok ==> final(self).inputs@.drop_last() == old(self).inputs@,
            r is Ok ==> (final(self).inputs@.last() matches Input::Rustc { rev }
                && commit_hash_field(rustc_output@) == Some(rev@)),
    {
        match rustc_commit_hash(rustc_output) {
            Some(rev) => {
                self.inputs.push(Input::Rustc { rev });
                assert(self.inputs@.drop_last() =~= old(self).inputs@);
                Ok(())
            },
            None => Err(
                CollectError::Configuration { what: "failed to find rustc commit hash".to_string() },
            ),
        }
    }

    /// Records the dependency lockfile, parsed as TOML and written out again as
    /// JSON; fails with a parse error, recording nothing, where it is not TOML.
    pub fn add_lockfile(&mut self, contents: &str) -> (r: Result<(), CollectError>)
        ensures
            final(self).name == old(self).name,
            final(self).outputs == old(self).outputs,
            r is Ok <==> toml_accepts(contents@),
            r matches Err(e) ==> e is Parse && final(self).inputs == old(self).inputs,
            r is Ok ==> final(self).inputs@.len() == old(self).inputs@.len() + 1,
            r is Ok ==> final(self).inputs@.drop_last() == old(self).inputs@,
            r is Ok ==> (final(self).inputs@.last() matches Input::CargoLock { contents: json }
                && json@ == toml_json_text(contents@)),
    {
        match toml_as_json(contents) {
            Some(json) => {
                self.inputs.push(Input::CargoLock { contents: json });
                assert(self.inputs@.drop_last() =~= old(self).inputs@);
                Ok(())
            },
            None => Err(CollectError::Parse { what: "Cargo.lock is not TOML".to_string() }),
        }
    }

    /// Records the JavaScript lockfile as read.
    pub fn add_package_lock(&mut self, contents: String)
        ensures
            final(self).name == old(self).name,
            final(self).outputs == old(self).outputs,
            final(self).inputs@ == old(self).inputs@.push(Input::PackageJsonLock { contents }),
    {
        self.inputs.push(Input::PackageJsonLock { contents });
    }

    /// Records the sizes of a packaging-tool build: raw shim, raw wasm, then
    /// their compressed sizes.
    pub fn add_wasm_pack_outputs(&mut self, js: u64, wasm: u64, js_gz: u64, wasm_gz: u64)
        ensures
            final(self).name == old(self).name,
            final(self).inputs == old(self).inputs,
            final(self).outputs@.len() == old(self).outputs@.len() + 4,
            final(self).outputs@.subrange(0, old(self).outputs@.len() as int)
                == old(self).outputs@,
            output_is(final(self).outputs@[old(self).outputs@.len() as int], js, "wasm-bindgen js shim"@),
            output_is(final(self).outputs@[old(self).outputs@.len() + 1int], wasm, "wasm-bindgen wasm"@),
            output_is(
                final(self).outputs@[old(self).outputs@.len() + 2int],
                js_gz,
                "wasm-bindgen js shim (gz)"@,
            ),
            output_is(
                final(self).outputs@[old(self).outputs@.len() + 3int],
                wasm_gz,
                "wasm-bindgen wasm (gz)"@,
            ),
    {
        self.outputs.push(Output { bytes: js, name: "wasm-bindgen js shim".to_string() });
        self.outputs.push(Output { bytes: wasm, name: "wasm-bindgen wasm".to_string() });
        self.outputs.push(Output { bytes: js_gz, name: "wasm-bindgen js shim (gz)".to_string() });
        self.outputs.push(Output { bytes: wasm_gz, name: "wasm-bindgen wasm (gz)".to_string() });
        assert(self.outputs@.subrange(0, old(self).outputs@.len() as int) =~= old(self).outputs@);
    }

    /// Records the sizes of a direct compiler build: raw wasm, then compressed.
    pub fn add_cargo_outputs(&mut self, wasm: u64, wasm_gz: u64)
        ensures
            final(self).name == old(self).name,
            final(self).inputs == old(self).inputs,
            final(self).outputs@.len() == old(self).outputs@.len() + 2,
            final(self).outputs@.subrange(0, old(self).outputs@.len() as int)
                == old(self).outputs@,
            output_is(final(self).outputs@[old(self).outputs@.len() as int], wasm, "wasm"@),
            output_is(final(self).outputs@[old(self).outputs@.len() + 1int], wasm_gz, "wasm (gz)"@),
    {
        self.outputs.push(Output { bytes: wasm, name: "wasm".to_string() });
        self.outputs.push(Output { bytes: wasm_gz, name: "wasm (gz)".to_string() });
        assert(self.outputs@.subrange(0, old(self).outputs@.len() as int) =~= old(self).outputs@);
    }

    /// Records the bundler's totals: raw JavaScript, raw wasm, then their
    /// compressed sizes.
    pub fn add_webpack_outputs(&mut self, sizes: &DistSizes)
        ensures
            final(self).name == old(self).name,
            final(self).inputs == old(self).inputs,
            final(self).outputs@.len() == old(self).outputs@.len() + 4,
            final(self).outputs@.subrange(0, old(self).outputs@.len() as int)
                == old(self).outputs@,
            output_is(
                final(self).outputs@[old(self).outputs@.len() as int],
                sizes.js,
                "webpack-generated js"@,
            ),
            output_is(
                final(self).outputs@[old(self).outputs@.len() + 1int],
                sizes.wasm,
                "webpack-generated wasm"@,
            ),
            output_is(
                final(self).outputs@[old(self).outputs@.len() + 2int],
                sizes.js_gz,
                "webpack-generated js (gz)"@,
            ),
            output_is(
                final(self).outputs@[old(self).outputs@.len() + 3int],
                sizes.wasm_gz,
                "webpack-generated wasm (gz)"@,
            ),
    {
        self.outputs.push(Output { bytes: sizes.js, name: "webpack-generated js".to_string() });
        self.outputs.push(Output { bytes: sizes.wasm, name: "webpack-generated wasm".to_string() });
        self.outputs.push(
            Output { bytes: sizes.js_gz, name: "webpack-generated js (gz)".to_string() },
        );
        self.outputs.push(
            Output { bytes: sizes.wasm_gz, name: "webpack-generated wasm (gz)".to_string() },
        );
        assert(self.outputs@.subrange(0, old(self).outputs@.len() as int) =~= old(self).outputs@);
    }
}

} // verus!
