//! The exact texts the drivers hand to the engine: compiler
//! configuration objects, the platform-constants object, the entry-call
//! expression, the require expression of the snapshot stage, and the
//! snapshot output path.
use vstd::prelude::*;

use vstd::string::StringExecFns;

use crate::json::json_quote;
use crate::json::json_string_array;
use crate::json::spec_json_string;
use crate::json::spec_json_string_array;

verus! {

/// The configuration of a plain compile session: each module compiled to
/// its own ESM output, declarations and source maps on.
pub open spec fn spec_compile_config_json() -> Seq<char> {
    "{\"compilerOptions\":{\"declaration\":true,\"lib\":[\"esnext\"],\"module\":\"esnext\",\"target\":\"esnext\",\"listFiles\":true,\"listEmittedFiles\":true,\"sourceMap\":true}}"@
}

/// The configuration text of a plain compile session.
pub fn compile_config_json() -> (r: String)
    ensures
        r@ == spec_compile_config_json(),
{
    String::from_str(
        "{\"compilerOptions\":{\"declaration\":true,\"lib\":[\"esnext\"],\"module\":\"esnext\",\"target\":\"esnext\",\"listFiles\":true,\"listEmittedFiles\":true,\"sourceMap\":true}}",
    )
}

/// The configuration of a bundle session: AMD modules concatenated into
/// the single output file named by `out_file`.
pub open spec fn spec_bundle_config_json(out_file: Seq<char>) -> Seq<char> {
    "{\"compilerOptions\":{\"declaration\":true,\"lib\":[\"esnext\"],\"module\":\"amd\",\"target\":\"esnext\",\"listFiles\":true,\"listEmittedFiles\":true,\"typeRoots\":[\"$typeRoots$\"],\"sourceMap\":true,\"outFile\":"@
        + spec_json_string(out_file) + "}}"@
}

/// The configuration text of a bundle session writing to `out_file`.
pub fn bundle_config_json(out_file: &str) -> (r: String)
    ensures
        r@ == spec_bundle_config_json(out_file@),
{
    let mut s = String::from_str(
        "{\"compilerOptions\":{\"declaration\":true,\"lib\":[\"esnext\"],\"module\":\"amd\",\"target\":\"esnext\",\"listFiles\":true,\"listEmittedFiles\":true,\"typeRoots\":[\"$typeRoots$\"],\"sourceMap\":true,\"outFile\":",
    );
    let quoted = json_quote(out_file);
    s.append(quoted.as_str());
    s.append("}}");
    s
}

/// The platform-constants object: the placeholder names the compiler
/// payload recognizes, bound to the given operating-system family and
/// CPU architecture tags.
pub open spec fn spec_preprocessor_replacements_json(os: Seq<char>, arch: Seq<char>) -> Seq<char> {
    "{\"DENO_REPLACE_ARCH\":"@ + spec_json_string(arch) + ",\"DENO_REPLACE_OS\":"@ + spec_json_string(os)
        + "}"@
}

/// The platform-constants text for the given tags.
pub fn preprocessor_replacements_json(os: &str, arch: &str) -> (r: String)
    ensures
        r@ == spec_preprocessor_replacements_json(os@, arch@),
{
    let mut s = String::from_str("{\"DENO_REPLACE_ARCH\":");
    let qa = json_quote(arch);
    s.append(qa.as_str());
    s.append(",\"DENO_REPLACE_OS\":");
    let qo = json_quote(os);
    s.append(qo.as_str());
    s.append("}");
    s
}

/// The synthetic root appended after every root module list: the core
/// runtime's own ambient type-declaration module.
pub open spec fn spec_core_runtime_root() -> Seq<char> {
    "$asset$/lib.deno_core.d.ts"@
}

/// Appends the core runtime's type-declaration module as the final root.
pub fn append_core_runtime_root(roots: &mut Vec<String>)
    ensures
        final(roots).deep_view() == old(roots).deep_view().push(spec_core_runtime_root()),
{
    roots.push(String::from_str("$asset$/lib.deno_core.d.ts"));
    proof {
        assert(roots.deep_view() =~= old(roots).deep_view().push(spec_core_runtime_root()));
    }
}

/// The single top-level call that starts a compile session: the
/// bootstrap entry function applied to the JSON-encoded configuration,
/// the root module list, and the platform constants.
pub open spec fn spec_bootstrap_call_source(
    config_json: Seq<char>,
    root_names: Seq<Seq<char>>,
    os: Seq<char>,
    arch: Seq<char>,
) -> Seq<char> {
    "main("@ + spec_json_string(config_json) + ", "@ + spec_json_string_array(root_names) + ", "@
        + spec_preprocessor_replacements_json(os, arch) + ")"@
}

/// Builds the entry-call text for the given arguments.
pub fn bootstrap_call_source(config_json: &str, root_names: &Vec<String>, os: &str, arch: &str) -> (r:
    String)
    ensures
        r@ == spec_bootstrap_call_source(config_json@, root_names.deep_view(), os@, arch@),
{
    let mut s = String::from_str("main(");
    let qc = json_quote(config_json);
    s.append(qc.as_str());
    s.append(", ");
    let arr = json_string_array(root_names);
    s.append(arr.as_str());
    s.append(", ");
    let repl = preprocessor_replacements_json(os, arch);
    s.append(repl.as_str());
    s.append(")");
    s
}

/// The expression that runs the designated entry module to completion
/// inside the snapshot-stage engine.
pub open spec fn spec_require_call_source(module: Seq<char>) -> Seq<char> {
    "require('"@ + module + "')"@
}

/// Builds the require expression for the entry module.
pub fn require_call_source(module: &str) -> (r: String)
    ensures
        r@ == spec_require_call_source(module@),
{
    let mut s = String::from_str("require('");
    s.append(module);
    s.append("')");
    s
}

/// The deterministic output path of a snapshot image: the build output
/// directory, the build-variable name, and a fixed binary suffix.
pub open spec fn spec_snapshot_output_path(out_dir: Seq<char>, variable_name: Seq<char>) -> Seq<
    char,
> {
    out_dir + "/"@ + variable_name + ".bin"@
}

/// Builds the snapshot output path for the given directory and variable.
pub fn snapshot_output_path(out_dir: &str, variable_name: &str) -> (r: String)
    ensures
        r@ == spec_snapshot_output_path(out_dir@, variable_name@),
{
    let mut s = String::from_str(out_dir);
    s.append("/");
    s.append(variable_name);
    s.append(".bin");
    s
}

} // verus!
