use vstd::prelude::*;

use crate::paths::{
    file_name, file_name_of, file_stem, file_stem_of, find_last, join, join_path, last_index_of,
    lemma_last_index_of, parent, parent_of,
};
use crate::text::{chars_of, ends_with, starts_with, starts_with_chars};

verus! {

/// What `blake3::hash(..).to_hex()` gives for the UTF-8 bytes of a text.
pub uninterp spec fn blake3_hex_of(text: Seq<char>) -> Seq<char>;

/// A lowercase hexadecimal digit.
pub open spec fn is_hex_digit(c: char) -> bool {
    ('0' <= c && c <= '9') || ('a' <= c && c <= 'f')
}

/// Relies on `blake3::hash` and `blake3::Hash::to_hex`: the digest of the
/// text's bytes as 64 lowercase hexadecimal digits, two per digest byte.
#[verifier::external_body]
fn blake3_hex(text: &str) -> (r: String)
    ensures
        r@ == blake3_hex_of(text@),
        r@.len() == 64,
        forall|i: int| 0 <= i < r@.len() ==> is_hex_digit(#[trigger] r@[i]),
{
    blake3::hash(text.as_bytes()).to_hex().as_str().to_string()
}

/// The stem that names a source's artifact: the file stem, else `capsule`.
pub open spec fn artifact_stem(path: Seq<char>) -> Seq<char> {
    match file_stem_of(path) {
        Some(s) => s,
        None => "capsule"@,
    }
}

/// The artifact file name of a source path: `<stem>_<8hex>.wasm`, where the
/// digits lead the BLAKE3 digest of the whole path.
pub open spec fn wasm_filename_of(path: Seq<char>) -> Seq<char> {
    artifact_stem(path) + "_"@ + blake3_hex_of(path).subrange(0, 8) + ".wasm"@
}

/// The artifact file name of a source path (see `wasm_filename_of`). The same
/// path always gives the same name.
pub fn generate_wasm_filename(source_path: &str) -> (r: String)
    ensures
        r@ == wasm_filename_of(source_path@),
        starts_with(r@, artifact_stem(source_path@) + "_"@),
        ends_with(r@, ".wasm"@),
        r@.len() == artifact_stem(source_path@).len() + 14,
        forall|i: int|
            artifact_stem(source_path@).len() + 1 <= i < artifact_stem(source_path@).len() + 9
                ==> is_hex_digit(#[trigger] r@[i]),
{
    let stem = match file_stem(source_path) {
        Some(s) => s,
        None => String::from_str("capsule"),
    };
    let hex = blake3_hex(source_path);
    let short = hex.as_str().substring_char(0, 8);
    let mut out = stem;
    out.append("_");
    out.append(short);
    out.append(".wasm");
    proof {
        reveal_strlit("_");
        reveal_strlit(".wasm");
        let s = artifact_stem(source_path@);
        assert(out@.subrange(0, s.len() + 1 as int) =~= s + "_"@);
        assert(out@.subrange(out@.len() - 5, out@.len() as int) =~= ".wasm"@);
        assert forall|i: int| s.len() + 1 <= i < s.len() + 9 implies is_hex_digit(
            #[trigger] out@[i],
        ) by {
            assert(out@[i] == hex@[i - s.len() - 1]);
        }
    }
    out
}

/// Whether an artifact built at `artifact` (absent: `None`) must be built
/// again: the source, or a sibling source file, was modified after it.
pub open spec fn stale(artifact: Option<u128>, source: u128, siblings: Seq<u128>) -> bool {
    match artifact {
        None => true,
        Some(a) => source > a || exists|i: int| 0 <= i < siblings.len() && #[trigger] siblings[i] > a,
    }
}

/// Whether an artifact must be rebuilt, from modification times (see `stale`).
pub fn is_stale(artifact_mtime: Option<u128>, source_mtime: u128, sibling_mtimes: &Vec<u128>) -> (r: bool)
    ensures
        r == stale(artifact_mtime, source_mtime, sibling_mtimes@),
{
    let a = match artifact_mtime {
        None => return true,
        Some(a) => a,
    };
    if source_mtime > a {
        return true;
    }
    let mut i: usize = 0;
    while i < sibling_mtimes.len()
        invariant
            i <= sibling_mtimes@.len(),
            artifact_mtime == Some(a),
            source_mtime <= a,
            forall|j: int| 0 <= j < i ==> #[trigger] sibling_mtimes@[j] <= a,
        decreases sibling_mtimes@.len() - i,
    {
        if sibling_mtimes[i] > a {
            assert(sibling_mtimes@[i as int] > a);
            return true;
        }
        i += 1;
    }
    false
}

/// An artifact written no earlier than every source it was built from is
/// not rebuilt while no source changes: a second compile finds nothing to
/// do and keeps the artifact.
pub proof fn lemma_compile_idempotent(built_at: u128, source: u128, siblings: Seq<u128>)
    requires
        source <= built_at,
        forall|i: int| 0 <= i < siblings.len() ==> #[trigger] siblings[i] <= built_at,
    ensures
        !stale(Some(built_at), source, siblings),
{
}

/// The extension of the last component of a path: what follows its last
/// `.`, unless that `.` leads the name.
pub open spec fn extension_of(path: Seq<char>) -> Option<Seq<char>> {
    match file_name_of(path) {
        Some(name) => match last_index_of(name, '.') {
            Some(k) => if k == 0 {
                None
            } else {
                Some(name.subrange(k + 1, name.len() as int))
            },
            None => None,
        },
        None => None,
    }
}

/// The extension of a path (see `extension_of`).
pub fn extension(path: &str) -> (r: Option<String>)
    ensures
        r matches Some(e) ==> extension_of(path@) == Some(e@),
        r is None ==> extension_of(path@) is None,
{
    let name = match file_name(path) {
        Some(n) => n,
        None => return None,
    };
    let c = chars_of(name.as_str());
    let n = name.as_str().unicode_len();
    proof {
        lemma_last_index_of(name@, '.');
    }
    match find_last(c.as_slice(), '.') {
        Some(k) => if k == 0 {
            None
        } else {
            Some(String::from_str(name.as_str().substring_char(k + 1, n)))
        },
        None => None,
    }
}

/// Whether a path has the extension `ext`.
fn has_extension(path: &str, ext: &str) -> (r: bool)
    ensures
        r == (extension_of(path@) == Some(ext@)),
{
    match extension(path) {
        Some(e) => {
            let a = chars_of(e.as_str());
            let b = chars_of(ext);
            crate::text::same_chars(a.as_slice(), b.as_slice())
        },
        None => false,
    }
}

/// Whether a file counts as a Python source of the project.
pub fn is_python_source(path: &str) -> (r: bool)
    ensures
        r == (extension_of(path@) == Some("py"@)),
{
    has_extension(path, "py")
}

/// Whether a file counts as a JavaScript or TypeScript source of the project.
pub fn is_script_source(path: &str) -> (r: bool)
    ensures
        r == (extension_of(path@) == Some("js"@) || extension_of(path@) == Some("mjs"@)
            || extension_of(path@) == Some("ts"@)),
{
    has_extension(path, "js") || has_extension(path, "mjs") || has_extension(path, "ts")
}

/// Whether the staleness walk leaves a directory out: hidden directories and
/// `node_modules`.
pub fn skips_directory(name: &str) -> (r: bool)
    ensures
        r == ((name@.len() > 0 && name@[0] == '.') || name@ == "node_modules"@),
{
    let n = chars_of(name);
    if n.len() > 0 && n[0] == '.' {
        return true;
    }
    let nm = chars_of("node_modules");
    crate::text::same_chars(n.as_slice(), nm.as_slice())
}

/// The first lines of the Python bootloader, before the module name.
pub open spec fn python_boot_head() -> Seq<char> {
    "# Capsule bootloader: imports the user's module, which registers its tasks,\n# and re-exports TaskRunner for componentize-py.\nimport "@
}

/// The last lines of the Python bootloader, after the module name.
pub open spec fn python_boot_tail() -> Seq<char> {
    "\nfrom capsule.app import TaskRunner, exports\n"@
}

/// The Python bootloader for a user module.
pub fn python_bootloader(module_name: &str) -> (r: String)
    ensures
        r@ == python_boot_head() + module_name@ + python_boot_tail(),
{
    let mut s = String::from_str(
        "# Capsule bootloader: imports the user's module, which registers its tasks,\n# and re-exports TaskRunner for componentize-py.\nimport ",
    );
    s.append(module_name);
    s.append("\nfrom capsule.app import TaskRunner, exports\n");
    s
}

/// The JavaScript bootloader for a user module and an SDK directory.
pub open spec fn javascript_boot_text(module_name: Seq<char>, sdk_path: Seq<char>) -> Seq<char> {
    "// Capsule bootloader: imports the user module and the SDK, and re-exports the TaskRunner interface.\nimport './"@
        + module_name + ".js';\nimport { exports } from '"@ + sdk_path
        + "/capsule/app.js';\nexport { exports };\n"@
}

/// The JavaScript bootloader for a user module and an SDK directory.
pub fn javascript_bootloader(module_name: &str, sdk_path: &str) -> (r: String)
    ensures
        r@ == javascript_boot_text(module_name@, sdk_path@),
{
    let mut s = String::from_str(
        "// Capsule bootloader: imports the user module and the SDK, and re-exports the TaskRunner interface.\nimport './",
    );
    s.append(module_name);
    s.append(".js';\nimport { exports } from '");
    s.append(sdk_path);
    s.append("/capsule/app.js';\nexport { exports };\n");
    s
}

/// Failures of the Python adapter.
#[derive(Debug, Clone)]
pub enum PythonWasmCompilerError {
    CompileFailed(String),
    FsError(String),
}

impl PythonWasmCompilerError {
    pub fn message(&self) -> (r: String)
        ensures
            r@ == match *self {
                PythonWasmCompilerError::CompileFailed(m) => "Compilation failed > "@ + m@,
                PythonWasmCompilerError::FsError(m) => "File system error > "@ + m@,
            },
    {
        match self {
            PythonWasmCompilerError::CompileFailed(m) => {
                let mut s = String::from_str("Compilation failed > ");
                s.append(m.as_str());
                s
            },
            PythonWasmCompilerError::FsError(m) => {
                let mut s = String::from_str("File system error > ");
                s.append(m.as_str());
                s
            },
        }
    }
}

/// Failures of the JavaScript adapter.
#[derive(Debug, Clone)]
pub enum JavascriptWasmCompilerError {
    CompileFailed(String),
    FsError(String),
}

impl JavascriptWasmCompilerError {
    pub fn message(&self) -> (r: String)
        ensures
            r@ == match *self {
                JavascriptWasmCompilerError::CompileFailed(m) => "Compilation failed > "@ + m@,
                JavascriptWasmCompilerError::FsError(m) => "File system error > "@ + m@,
            },
    {
        match self {
            JavascriptWasmCompilerError::CompileFailed(m) => {
                let mut s = String::from_str("Compilation failed > ");
                s.append(m.as_str());
                s
            },
            JavascriptWasmCompilerError::FsError(m) => {
                let mut s = String::from_str("File system error > ");
                s.append(m.as_str());
                s
            },
        }
    }
}

/// The cache directory beside a source directory.
pub open spec fn cache_dir_of(source_dir: Seq<char>) -> Seq<char> {
    join_path(source_dir, ".capsule"@)
}

/// The artifact that a compiler writes into its cache directory.
pub open spec fn output_of(source_dir: Seq<char>) -> Seq<char> {
    join_path(cache_dir_of(source_dir), "capsule.wasm"@)
}

/// Where the Python adapter puts things for a source file.
#[derive(Debug, Clone)]
pub struct PythonWasmCompiler {
    pub source_path: String,
    pub cache_dir: String,
    pub output_wasm: String,
}

impl PythonWasmCompiler {
    /// The adapter for a resolved source path: its cache directory beside
    /// the source and the artifact inside it.
    pub fn new(source_path: &str) -> (r: Result<Self, PythonWasmCompilerError>)
        ensures
            parent_of(source_path@) is None ==> r matches Err(PythonWasmCompilerError::FsError(_)),
            parent_of(source_path@) matches Some(d) ==> r matches Ok(c) && c.source_path@
                == source_path@ && c.cache_dir@ == cache_dir_of(d) && c.output_wasm@ == output_of(d),
    {
        let dir = match parent(source_path) {
            Some(d) => d,
            None => {
                return Err(
                    PythonWasmCompilerError::FsError(
                        String::from_str("Cannot determine source directory"),
                    ),
                );
            },
        };
        let cache_dir = join(dir.as_str(), ".capsule");
        let output_wasm = join(cache_dir.as_str(), "capsule.wasm");
        Ok(PythonWasmCompiler { source_path: String::from_str(source_path), cache_dir, output_wasm })
    }

    /// The name under which the bootloader imports the user's module.
    pub fn module_name(&self) -> (r: Result<String, PythonWasmCompilerError>)
        ensures
            file_stem_of(self.source_path@) matches Some(s) ==> r matches Ok(m) && m@ == s,
            file_stem_of(self.source_path@) is None ==> r matches Err(
                PythonWasmCompilerError::FsError(_),
            ),
    {
        match file_stem(self.source_path.as_str()) {
            Some(s) => Ok(s),
            None => Err(PythonWasmCompilerError::FsError(String::from_str("Invalid source file name"))),
        }
    }

    /// Where the bootloader is written.
    pub fn bootloader_path(&self) -> (r: String)
        ensures
            r@ == join_path(self.cache_dir@, "_capsule_boot.py"@),
    {
        join(self.cache_dir.as_str(), "_capsule_boot.py")
    }
}

/// Where the JavaScript adapter puts things for a source file.
#[derive(Debug, Clone)]
pub struct JavascriptWasmCompiler {
    pub source_path: String,
    pub cache_dir: String,
    pub output_wasm: String,
}

/// The prefix of a Windows verbatim path.
pub open spec fn verbatim_prefix() -> Seq<char> {
    seq!['\\', '\\', '?', '\\']
}

impl JavascriptWasmCompiler {
    /// A path as the toolchain accepts it: without a leading `\\?\`.
    pub fn normalize_path_for_command(path: &str) -> (r: String)
        ensures
            starts_with(path@, verbatim_prefix()) ==> r@ == path@.subrange(4, path@.len() as int),
            !starts_with(path@, verbatim_prefix()) ==> r@ == path@,
    {
        let p = chars_of(path);
        let mut pre: Vec<char> = Vec::new();
        pre.push('\\');
        pre.push('\\');
        pre.push('?');
        pre.push('\\');
        assert(pre@ =~= verbatim_prefix());
        if starts_with_chars(p.as_slice(), pre.as_slice()) {
            String::from_str(path.substring_char(4, path.unicode_len()))
        } else {
            String::from_str(path)
        }
    }

    /// The adapter for a resolved source path (see `PythonWasmCompiler::new`).
    pub fn new(source_path: &str) -> (r: Result<Self, JavascriptWasmCompilerError>)
        ensures
            parent_of(source_path@) is None ==> r matches Err(JavascriptWasmCompilerError::FsError(_)),
            parent_of(source_path@) matches Some(d) ==> r matches Ok(c) && c.source_path@
                == source_path@ && c.cache_dir@ == cache_dir_of(d) && c.output_wasm@ == output_of(d),
    {
        let dir = match parent(source_path) {
            Some(d) => d,
            None => {
                return Err(
                    JavascriptWasmCompilerError::FsError(
                        String::from_str("Cannot determine source directory"),
                    ),
                );
            },
        };
        let cache_dir = join(dir.as_str(), ".capsule");
        let output_wasm = join(cache_dir.as_str(), "capsule.wasm");
        Ok(
            JavascriptWasmCompiler {
                source_path: String::from_str(source_path),
                cache_dir,
                output_wasm,
            },
        )
    }

    /// The name under which the bootloader imports the user's module.
    pub fn module_name(&self) -> (r: Result<String, JavascriptWasmCompilerError>)
        ensures
            file_stem_of(self.source_path@) matches Some(s) ==> r matches Ok(m) && m@ == s,
            file_stem_of(self.source_path@) is None ==> r matches Err(
                JavascriptWasmCompilerError::FsError(_),
            ),
    {
        match file_stem(self.source_path.as_str()) {
            Some(s) => Ok(s),
            None => Err(
                JavascriptWasmCompilerError::FsError(String::from_str("Invalid source file name")),
            ),
        }
    }

    /// Whether the source is TypeScript and must be transpiled first.
    pub fn needs_transpile(&self) -> (r: bool)
        ensures
            r == (extension_of(self.source_path@) == Some("ts"@)),
    {
        has_extension(self.source_path.as_str(), "ts")
    }

    /// Where the transpiled module of `module_name` is written.
    pub fn transpiled_path(&self, module_name: &str) -> (r: String)
        ensures
            r@ == join_path(self.cache_dir@, module_name@ + ".js"@),
    {
        let mut name = String::from_str(module_name);
        name.append(".js");
        join(self.cache_dir.as_str(), name.as_str())
    }

    /// Where the bootloader is written.
    pub fn bootloader_path(&self) -> (r: String)
        ensures
            r@ == join_path(self.cache_dir@, "_capsule_boot.js"@),
    {
        join(self.cache_dir.as_str(), "_capsule_boot.js")
    }
}

} // verus!
