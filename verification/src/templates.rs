//! The template bundle: a read-only, build-time-embedded set of named text
//! payloads. Each payload is literal text; the web host page additionally
//! carries a single `$PROJECT_NAME` placeholder that the scaffold plan
//! resolves with the project's name.

use vstd::prelude::*;
use crate::text::{chars_of, occurs, occurs_at, replace_all};

verus! {

/// The logical names of the embedded templates. The set is fixed at build
/// time, so lookups are total over it.
#[derive(Clone, Copy, Debug, PartialEq, Eq, Structural)]
pub enum TemplateName {
    /// The build driver recipe, destined for `Makefile`.
    BuildDriver,
    /// The page that hosts the web artifact, destined for `html/index.html`.
    WebHostPage,
    /// The toolchain configuration, destined for `.cargo/config.toml`.
    ToolchainConfig,
    /// The project's entry-point source, destined for `src/main.rs`.
    EntrySource,
}

/// The placeholder key recognized inside template payloads.
pub open spec fn spec_placeholder_key() -> Seq<char> {
    "$PROJECT_NAME"@
}

/// The payload of the build driver template.
pub open spec fn spec_build_driver() -> Seq<char> {
    "all:\n\tcargo build --release --target wasm32-unknown-unknown\n\tcp target/wasm32-unknown-unknown/release/*.wasm html/game.wasm\n"@
}

/// The payload of the web host page template. It holds exactly one
/// occurrence of the `$PROJECT_NAME` placeholder.
pub open spec fn spec_web_host_page() -> Seq<char> {
    "<!DOCTYPE html>\n<html>\n<head>\n<meta charset=\"utf-8\">\n<title>$PROJECT_NAME</title>\n</head>\n<body>\n<canvas id=\"canvas\"></canvas>\n<script src=\"game.js\"></script>\n</body>\n</html>\n"@
}

/// The payload of the toolchain configuration template.
pub open spec fn spec_toolchain_config() -> Seq<char> {
    "[build]\ntarget = \"wasm32-unknown-unknown\"\n\n[target.wasm32-unknown-unknown]\nrunner = \"wasm-server-runner\"\n"@
}

/// The payload of the entry-point source template.
pub open spec fn spec_entry_source() -> Seq<char> {
    "use raylib::prelude::*;\n\nfn main() {\n    let (mut rl, thread) = raylib::init().size(640, 480).title(\"Game\").build();\n    while !rl.window_should_close() {\n        let mut d = rl.begin_drawing(&thread);\n        d.clear_background(Color::WHITE);\n        d.draw_text(\"Hello, world!\", 12, 12, 20, Color::BLACK);\n    }\n}\n"@
}

/// The payload addressed by a logical template name.
pub open spec fn spec_template(name: TemplateName) -> Seq<char> {
    match name {
        TemplateName::BuildDriver => spec_build_driver(),
        TemplateName::WebHostPage => spec_web_host_page(),
        TemplateName::ToolchainConfig => spec_toolchain_config(),
        TemplateName::EntrySource => spec_entry_source(),
    }
}

/// The destination path, relative to the working directory, that a template
/// is materialized at.
pub open spec fn spec_destination(name: TemplateName) -> Seq<char> {
    match name {
        TemplateName::BuildDriver => "Makefile"@,
        TemplateName::WebHostPage => "html/index.html"@,
        TemplateName::ToolchainConfig => ".cargo/config.toml"@,
        TemplateName::EntrySource => "src/main.rs"@,
    }
}

/// The recognized placeholder key, as characters.
pub fn placeholder_key() -> (v: Vec<char>)
    ensures
        v@ == spec_placeholder_key(),
{
    chars_of("$PROJECT_NAME")
}

/// Look a template's payload up by its logical name. The names are
/// compile-time constants, so the lookup is total.
pub fn template_payload(name: TemplateName) -> (v: Vec<char>)
    ensures
        v@ == spec_template(name),
{
    match name {
        TemplateName::BuildDriver => chars_of(
            "all:\n\tcargo build --release --target wasm32-unknown-unknown\n\tcp target/wasm32-unknown-unknown/release/*.wasm html/game.wasm\n",
        ),
        TemplateName::WebHostPage => chars_of(
            "<!DOCTYPE html>\n<html>\n<head>\n<meta charset=\"utf-8\">\n<title>$PROJECT_NAME</title>\n</head>\n<body>\n<canvas id=\"canvas\"></canvas>\n<script src=\"game.js\"></script>\n</body>\n</html>\n",
        ),
        TemplateName::ToolchainConfig => chars_of(
            "[build]\ntarget = \"wasm32-unknown-unknown\"\n\n[target.wasm32-unknown-unknown]\nrunner = \"wasm-server-runner\"\n",
        ),
        TemplateName::EntrySource => chars_of(
            "use raylib::prelude::*;\n\nfn main() {\n    let (mut rl, thread) = raylib::init().size(640, 480).title(\"Game\").build();\n    while !rl.window_should_close() {\n        let mut d = rl.begin_drawing(&thread);\n        d.clear_background(Color::WHITE);\n        d.draw_text(\"Hello, world!\", 12, 12, 20, Color::BLACK);\n    }\n}\n",
        ),
    }
}

/// The host page's text before its placeholder.
pub open spec fn spec_page_prefix() -> Seq<char> {
    "<!DOCTYPE html>\n<html>\n<head>\n<meta charset=\"utf-8\">\n<title>"@
}

/// The host page's text after its placeholder.
pub open spec fn spec_page_suffix() -> Seq<char> {
    "</title>\n</head>\n<body>\n<canvas id=\"canvas\"></canvas>\n<script src=\"game.js\"></script>\n</body>\n</html>\n"@
}

/// A key that starts with a character a text never holds does not occur in
/// that text.
proof fn lemma_missing_lead_char_no_occurrence(s: Seq<char>, key: Seq<char>, lead: char)
    requires
        key.len() > 0,
        key[0] == lead,
        forall|i: int| 0 <= i < s.len() ==> s[i] != lead,
    ensures
        !occurs(s, key),
{
    assert forall|i: int| !occurs_at(s, key, i) by {
        if occurs_at(s, key, i) {
            assert(s.subrange(i, i + key.len())[0] == key[0]);
        }
    }
}

/// The host page template holds exactly one occurrence of the placeholder
/// key, so resolving it alters nothing but that occurrence: for every
/// project name, the result is the page's prefix, then the name, then the
/// page's suffix, verbatim.
#[verifier::rlimit(60)]
pub proof fn lemma_host_page_single_occurrence(name: Seq<char>)
    ensures
        replace_all(spec_web_host_page(), spec_placeholder_key(), name) == spec_page_prefix()
            + name + spec_page_suffix(),
{
    reveal_strlit("$PROJECT_NAME");
    reveal_strlit(
        "<!DOCTYPE html>\n<html>\n<head>\n<meta charset=\"utf-8\">\n<title>$PROJECT_NAME</title>\n</head>\n<body>\n<canvas id=\"canvas\"></canvas>\n<script src=\"game.js\"></script>\n</body>\n</html>\n",
    );
    reveal_strlit("<!DOCTYPE html>\n<html>\n<head>\n<meta charset=\"utf-8\">\n<title>");
    reveal_strlit(
        "</title>\n</head>\n<body>\n<canvas id=\"canvas\"></canvas>\n<script src=\"game.js\"></script>\n</body>\n</html>\n",
    );
    let a = spec_page_prefix();
    let key = spec_placeholder_key();
    let b = spec_page_suffix();
    assert(key.len() == 13 && key[0] == '$');
    assert(spec_web_host_page() =~= a + key + b);
    assert(forall|i: int| 0 <= i < a.len() ==> a[i] != '$');
    assert(forall|i: int| 0 <= i < b.len() ==> b[i] != '$');
    assert forall|i: int| 0 <= i < a.len() implies !occurs_at(a + key + b, key, i) by {
        if occurs_at(a + key + b, key, i) {
            assert((a + key + b).subrange(i, i + key.len())[0] == key[0]);
            assert((a + key + b)[i] == a[i]);
        }
    }
    lemma_missing_lead_char_no_occurrence(b, key, '$');
    crate::text::lemma_replace_all_single_occurrence(a, key, b, name);
}

/// The destination path of a template, as characters.
pub fn template_destination(name: TemplateName) -> (v: Vec<char>)
    ensures
        v@ == spec_destination(name),
{
    match name {
        TemplateName::BuildDriver => chars_of("Makefile"),
        TemplateName::WebHostPage => chars_of("html/index.html"),
        TemplateName::ToolchainConfig => chars_of(".cargo/config.toml"),
        TemplateName::EntrySource => chars_of("src/main.rs"),
    }
}

} // verus!
