//! The built-in declaration-module catalog the compiler consults through
//! the asset op: an exact-name lookup into a fixed name-to-text mapping.
//! A miss is an expected outcome, not an error.
use vstd::prelude::*;

use crate::text::str_eq;

verus! {

/// What [`get_asset`] returns for each name: a pure function of the name
/// alone, so resolution can depend on no other state.
pub open spec fn spec_get_asset(name: Seq<char>) -> Option<Seq<char>> {
    if name == "lib.deno_core.d.ts"@ {
        Some("// ambient core runtime declarations: lib.deno_core.d.ts\ndeclare function dispatch(opId: number, control: Uint8Array): null | Uint8Array;\n"@)
    } else if name == "lib.esnext.d.ts"@ {
        Some("// built-in declaration module: lib.esnext.d.ts\n"@)
    } else if name == "lib.es2019.d.ts"@ {
        Some("// built-in declaration module: lib.es2019.d.ts\n"@)
    } else if name == "lib.es2018.d.ts"@ {
        Some("// built-in declaration module: lib.es2018.d.ts\n"@)
    } else if name == "lib.es2017.d.ts"@ {
        Some("// built-in declaration module: lib.es2017.d.ts\n"@)
    } else if name == "lib.es2016.d.ts"@ {
        Some("// built-in declaration module: lib.es2016.d.ts\n"@)
    } else if name == "lib.es5.d.ts"@ {
        Some("// built-in declaration module: lib.es5.d.ts\n"@)
    } else if name == "lib.es2015.d.ts"@ {
        Some("// built-in declaration module: lib.es2015.d.ts\n"@)
    } else if name == "lib.es2015.core.d.ts"@ {
        Some("// built-in declaration module: lib.es2015.core.d.ts\n"@)
    } else if name == "lib.es2015.collection.d.ts"@ {
        Some("// built-in declaration module: lib.es2015.collection.d.ts\n"@)
    } else if name == "lib.es2015.generator.d.ts"@ {
        Some("// built-in declaration module: lib.es2015.generator.d.ts\n"@)
    } else if name == "lib.es2015.iterable.d.ts"@ {
        Some("// built-in declaration module: lib.es2015.iterable.d.ts\n"@)
    } else if name == "lib.es2015.promise.d.ts"@ {
        Some("// built-in declaration module: lib.es2015.promise.d.ts\n"@)
    } else if name == "lib.es2015.symbol.d.ts"@ {
        Some("// built-in declaration module: lib.es2015.symbol.d.ts\n"@)
    } else if name == "lib.es2015.proxy.d.ts"@ {
        Some("// built-in declaration module: lib.es2015.proxy.d.ts\n"@)
    } else if name == "lib.es2015.symbol.wellknown.d.ts"@ {
        Some("// built-in declaration module: lib.es2015.symbol.wellknown.d.ts\n"@)
    } else if name == "lib.es2015.reflect.d.ts"@ {
        Some("// built-in declaration module: lib.es2015.reflect.d.ts\n"@)
    } else if name == "lib.es2016.array.include.d.ts"@ {
        Some("// built-in declaration module: lib.es2016.array.include.d.ts\n"@)
    } else if name == "lib.es2017.object.d.ts"@ {
        Some("// built-in declaration module: lib.es2017.object.d.ts\n"@)
    } else if name == "lib.es2017.sharedmemory.d.ts"@ {
        Some("// built-in declaration module: lib.es2017.sharedmemory.d.ts\n"@)
    } else if name == "lib.es2017.string.d.ts"@ {
        Some("// built-in declaration module: lib.es2017.string.d.ts\n"@)
    } else if name == "lib.es2017.intl.d.ts"@ {
        Some("// built-in declaration module: lib.es2017.intl.d.ts\n"@)
    } else if name == "lib.es2017.typedarrays.d.ts"@ {
        Some("// built-in declaration module: lib.es2017.typedarrays.d.ts\n"@)
    } else if name == "lib.es2018.asynciterable.d.ts"@ {
        Some("// built-in declaration module: lib.es2018.asynciterable.d.ts\n"@)
    } else if name == "lib.es2018.promise.d.ts"@ {
        Some("// built-in declaration module: lib.es2018.promise.d.ts\n"@)
    } else if name == "lib.es2018.regexp.d.ts"@ {
        Some("// built-in declaration module: lib.es2018.regexp.d.ts\n"@)
    } else if name == "lib.es2018.intl.d.ts"@ {
        Some("// built-in declaration module: lib.es2018.intl.d.ts\n"@)
    } else if name == "lib.es2019.array.d.ts"@ {
        Some("// built-in declaration module: lib.es2019.array.d.ts\n"@)
    } else if name == "lib.es2019.object.d.ts"@ {
        Some("// built-in declaration module: lib.es2019.object.d.ts\n"@)
    } else if name == "lib.es2019.string.d.ts"@ {
        Some("// built-in declaration module: lib.es2019.string.d.ts\n"@)
    } else if name == "lib.es2019.symbol.d.ts"@ {
        Some("// built-in declaration module: lib.es2019.symbol.d.ts\n"@)
    } else if name == "lib.esnext.bigint.d.ts"@ {
        Some("// built-in declaration module: lib.esnext.bigint.d.ts\n"@)
    } else if name == "lib.esnext.intl.d.ts"@ {
        Some("// built-in declaration module: lib.esnext.intl.d.ts\n"@)
    } else {
        None
    }
}

/// Resolves a built-in declaration module by exact name. Returns the
/// bundled text for the known names and nothing for every other name.
#[verifier::rlimit(50)]
pub fn get_asset(name: &str) -> (r: Option<&'static str>)
    ensures
        match r {
            Some(t) => spec_get_asset(name@) == Some(t@),
            None => spec_get_asset(name@) is None,
        },
{
    if str_eq(name, "lib.deno_core.d.ts") {
        Some("// ambient core runtime declarations: lib.deno_core.d.ts\ndeclare function dispatch(opId: number, control: Uint8Array): null | Uint8Array;\n")
    } else if str_eq(name, "lib.esnext.d.ts") {
        Some("// built-in declaration module: lib.esnext.d.ts\n")
    } else if str_eq(name, "lib.es2019.d.ts") {
        Some("// built-in declaration module: lib.es2019.d.ts\n")
    } else if str_eq(name, "lib.es2018.d.ts") {
        Some("// built-in declaration module: lib.es2018.d.ts\n")
    } else if str_eq(name, "lib.es2017.d.ts") {
        Some("// built-in declaration module: lib.es2017.d.ts\n")
    } else if str_eq(name, "lib.es2016.d.ts") {
        Some("// built-in declaration module: lib.es2016.d.ts\n")
    } else if str_eq(name, "lib.es5.d.ts") {
        Some("// built-in declaration module: lib.es5.d.ts\n")
    } else if str_eq(name, "lib.es2015.d.ts") {
        Some("// built-in declaration module: lib.es2015.d.ts\n")
    } else if str_eq(name, "lib.es2015.core.d.ts") {
        Some("// built-in declaration module: lib.es2015.core.d.ts\n")
    } else if str_eq(name, "lib.es2015.collection.d.ts") {
        Some("// built-in declaration module: lib.es2015.collection.d.ts\n")
    } else if str_eq(name, "lib.es2015.generator.d.ts") {
        Some("// built-in declaration module: lib.es2015.generator.d.ts\n")
    } else if str_eq(name, "lib.es2015.iterable.d.ts") {
        Some("// built-in declaration module: lib.es2015.iterable.d.ts\n")
    } else if str_eq(name, "lib.es2015.promise.d.ts") {
        Some("// built-in declaration module: lib.es2015.promise.d.ts\n")
    } else if str_eq(name, "lib.es2015.symbol.d.ts") {
        Some("// built-in declaration module: lib.es2015.symbol.d.ts\n")
    } else if str_eq(name, "lib.es2015.proxy.d.ts") {
        Some("// built-in declaration module: lib.es2015.proxy.d.ts\n")
    } else if str_eq(name, "lib.es2015.symbol.wellknown.d.ts") {
        Some("// built-in declaration module: lib.es2015.symbol.wellknown.d.ts\n")
    } else if str_eq(name, "lib.es2015.reflect.d.ts") {
        Some("// built-in declaration module: lib.es2015.reflect.d.ts\n")
    } else if str_eq(name, "lib.es2016.array.include.d.ts") {
        Some("// built-in declaration module: lib.es2016.array.include.d.ts\n")
    } else if str_eq(name, "lib.es2017.object.d.ts") {
        Some("// built-in declaration module: lib.es2017.object.d.ts\n")
    } else if str_eq(name, "lib.es2017.sharedmemory.d.ts") {
        Some("// built-in declaration module: lib.es2017.sharedmemory.d.ts\n")
    } else if str_eq(name, "lib.es2017.string.d.ts") {
        Some("// built-in declaration module: lib.es2017.string.d.ts\n")
    } else if str_eq(name, "lib.es2017.intl.d.ts") {
        Some("// built-in declaration module: lib.es2017.intl.d.ts\n")
    } else if str_eq(name, "lib.es2017.typedarrays.d.ts") {
        Some("// built-in declaration module: lib.es2017.typedarrays.d.ts\n")
    } else if str_eq(name, "lib.es2018.asynciterable.d.ts") {
        Some("// built-in declaration module: lib.es2018.asynciterable.d.ts\n")
    } else if str_eq(name, "lib.es2018.promise.d.ts") {
        Some("// built-in declaration module: lib.es2018.promise.d.ts\n")
    } else if str_eq(name, "lib.es2018.regexp.d.ts") {
        Some("// built-in declaration module: lib.es2018.regexp.d.ts\n")
    } else if str_eq(name, "lib.es2018.intl.d.ts") {
        Some("// built-in declaration module: lib.es2018.intl.d.ts\n")
    } else if str_eq(name, "lib.es2019.array.d.ts") {
        Some("// built-in declaration module: lib.es2019.array.d.ts\n")
    } else if str_eq(name, "lib.es2019.object.d.ts") {
        Some("// built-in declaration module: lib.es2019.object.d.ts\n")
    } else if str_eq(name, "lib.es2019.string.d.ts") {
        Some("// built-in declaration module: lib.es2019.string.d.ts\n")
    } else if str_eq(name, "lib.es2019.symbol.d.ts") {
        Some("// built-in declaration module: lib.es2019.symbol.d.ts\n")
    } else if str_eq(name, "lib.esnext.bigint.d.ts") {
        Some("// built-in declaration module: lib.esnext.bigint.d.ts\n")
    } else if str_eq(name, "lib.esnext.intl.d.ts") {
        Some("// built-in declaration module: lib.esnext.intl.d.ts\n")
    } else {
        None
    }
}

/// Asset resolution is pure: equal names resolve to equal outcomes, no
/// matter what state the session is in or in what order lookups happen.
pub proof fn lemma_asset_resolution_pure(n1: Seq<char>, n2: Seq<char>)
    requires
        n1 == n2,
    ensures
        spec_get_asset(n1) == spec_get_asset(n2),
{
}

} // verus!
