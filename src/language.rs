//! The language table: how each supported language is classified, which
//! container image builds or runs it, and which commands do so.

use vstd::prelude::*;
use vstd::string::*;
use crate::text::text_eq;

verus! {

/// How a language reaches the execute step.
#[derive(Debug, Clone, Copy, PartialEq, Eq, Structural)]
pub enum LanguageClass {
    /// Compiled to one native binary.
    Native,
    /// Compiled to class files, shipped as a tar bundle with a launcher.
    JvmBundled,
    /// Run from source.
    Interpreted,
    /// Not in the table.
    Unsupported,
}

/// What `str::to_lowercase` makes of `s`.
pub uninterp spec fn lower_of(s: Seq<char>) -> Seq<char>;

/// Relies on `str::to_lowercase`: the result depends on the characters alone.
#[verifier::external_body]
fn lowercase(s: &str) -> (r: String)
    ensures
        r@ == lower_of(s@),
{
    s.to_lowercase()
}

pub open spec fn is_python(l: Seq<char>) -> bool {
    l == "python"@ || l == "python3"@
}

pub open spec fn is_javascript(l: Seq<char>) -> bool {
    l == "javascript"@ || l == "js"@ || l == "node"@
}

pub open spec fn is_ruby(l: Seq<char>) -> bool {
    l == "ruby"@
}

pub open spec fn is_cpp(l: Seq<char>) -> bool {
    l == "cpp"@ || l == "c++"@
}

pub open spec fn is_c(l: Seq<char>) -> bool {
    l == "c"@
}

pub open spec fn is_rust(l: Seq<char>) -> bool {
    l == "rust"@
}

pub open spec fn is_go(l: Seq<char>) -> bool {
    l == "go"@ || l == "golang"@
}

pub open spec fn is_java(l: Seq<char>) -> bool {
    l == "java"@
}

/// The class of an already lower-cased language name.
pub open spec fn class_of(l: Seq<char>) -> LanguageClass {
    if is_python(l) || is_javascript(l) || is_ruby(l) {
        LanguageClass::Interpreted
    } else if is_java(l) {
        LanguageClass::JvmBundled
    } else if is_cpp(l) || is_c(l) || is_rust(l) || is_go(l) {
        LanguageClass::Native
    } else {
        LanguageClass::Unsupported
    }
}

fn lang_is_python(l: &str) -> (r: bool)
    ensures
        r == is_python(l@),
{
    text_eq(l, "python") || text_eq(l, "python3")
}

fn lang_is_javascript(l: &str) -> (r: bool)
    ensures
        r == is_javascript(l@),
{
    text_eq(l, "javascript") || text_eq(l, "js") || text_eq(l, "node")
}

fn lang_is_cpp(l: &str) -> (r: bool)
    ensures
        r == is_cpp(l@),
{
    text_eq(l, "cpp") || text_eq(l, "c++")
}

fn lang_is_go(l: &str) -> (r: bool)
    ensures
        r == is_go(l@),
{
    text_eq(l, "go") || text_eq(l, "golang")
}

/// The class of a language name that is already lower case.
pub fn classify_lowered(l: &str) -> (r: LanguageClass)
    ensures
        r == class_of(l@),
{
    if lang_is_python(l) || lang_is_javascript(l) || text_eq(l, "ruby") {
        LanguageClass::Interpreted
    } else if text_eq(l, "java") {
        LanguageClass::JvmBundled
    } else if lang_is_cpp(l) || text_eq(l, "c") || text_eq(l, "rust") || lang_is_go(l) {
        LanguageClass::Native
    } else {
        LanguageClass::Unsupported
    }
}

/// The class of a language name, compared case-insensitively.
pub fn classify_language(language: &str) -> (r: LanguageClass)
    ensures
        r == class_of(lower_of(language@)),
{
    let l = lowercase(language);
    classify_lowered(l.as_str())
}

/// Whether a language runs from source without a compile step.
pub fn is_interpreted(language: &str) -> (r: bool)
    ensures
        r == (class_of(lower_of(language@)) == LanguageClass::Interpreted),
{
    classify_language(language) == LanguageClass::Interpreted
}

/// `parts` joined with single spaces.
pub open spec fn join_spaced(parts: Seq<Seq<char>>) -> Seq<char>
    decreases parts.len(),
{
    if parts.len() == 0 {
        Seq::empty()
    } else if parts.len() == 1 {
        parts[0]
    } else {
        join_spaced(parts.drop_last()) + seq![' '] + parts.last()
    }
}

pub open spec fn views(v: Seq<String>) -> Seq<Seq<char>> {
    v.map_values(|s: String| s@)
}

/// The flags joined with single spaces, as `[String]::join(" ")` gives them.
pub fn join_flags(flags: &Vec<String>) -> (r: String)
    ensures
        r@ == join_spaced(views(flags@)),
{
    let mut out = String::new();
    let mut i: usize = 0;
    while i < flags.len()
        invariant
            i <= flags@.len(),
            out@ == join_spaced(views(flags@.subrange(0, i as int))),
        decreases flags@.len() - i,
    {
        let ghost prev = views(flags@.subrange(0, i as int));
        assert(views(flags@.subrange(0, i + 1)).drop_last() =~= prev);
        if i > 0 {
            out.append(" ");
            proof {
                reveal_strlit(" ");
            }
        } else {
            assert(out@ =~= Seq::<char>::empty());
        }
        out.append(flags[i].as_str());
        i = i + 1;
        assert(out@ =~= join_spaced(views(flags@.subrange(0, i as int))));
    }
    assert(flags@.subrange(0, flags@.len() as int) =~= flags@);
    out
}

/// What the compile step of a language needs.
pub struct CompileRecipe {
    pub image: String,
    pub source_file: String,
    pub command: String,
    /// The file that holds the artifact once the command succeeded.
    pub artifact_path: String,
}

pub open spec fn java_compile_command() -> Seq<char> {
    "mkdir -p /tmp/classes && javac /tmp/Main.java -d /tmp/classes && cd /tmp && tar -cf /tmp/java_bundle.tar -C /tmp/classes . && echo '#!/bin/sh\njava -cp /tmp/classes Main' > /tmp/main && chmod +x /tmp/main && tar -rf /tmp/java_bundle.tar -C /tmp main"@
}

/// The recipe `(image, source file, command, artifact path)` for a lower-cased
/// language name and joined flags `f`; `None` where the language is not compiled.
pub open spec fn recipe_of(l: Seq<char>, f: Seq<char>) -> Option<(Seq<char>, Seq<char>, Seq<char>, Seq<char>)> {
    if is_cpp(l) {
        Some(("gcc:latest"@, "main.cpp"@, "g++ -static "@ + f + " -o /tmp/main /tmp/main.cpp"@, "/tmp/main"@))
    } else if is_c(l) {
        Some(("gcc:latest"@, "main.c"@, "gcc -static "@ + f + " -o /tmp/main /tmp/main.c"@, "/tmp/main"@))
    } else if is_rust(l) {
        Some(("rust:latest"@, "main.rs"@, "rustc "@ + f + " -o /tmp/main /tmp/main.rs"@, "/tmp/main"@))
    } else if is_go(l) {
        Some(("golang:latest"@, "main.go"@, "go build -o /tmp/main /tmp/main.go"@, "/tmp/main"@))
    } else if is_java(l) {
        Some(("eclipse-temurin:25"@, "Main.java"@, java_compile_command(), "/tmp/java_bundle.tar"@))
    } else {
        None
    }
}

pub open spec fn recipe_matches(r: CompileRecipe, t: (Seq<char>, Seq<char>, Seq<char>, Seq<char>)) -> bool {
    r.image@ == t.0 && r.source_file@ == t.1 && r.command@ == t.2 && r.artifact_path@ == t.3
}

fn command_around(head: &str, flags: &String, tail: &str) -> (r: String)
    ensures
        r@ == head@ + flags@ + tail@,
{
    let mut c = String::from_str(head);
    c.append(flags.as_str());
    c.append(tail);
    c
}

fn recipe(image: &str, source_file: &str, command: String, artifact_path: &str) -> (r: CompileRecipe)
    ensures
        recipe_matches(r, (image@, source_file@, command@, artifact_path@)),
{
    CompileRecipe {
        image: String::from_str(image),
        source_file: String::from_str(source_file),
        command,
        artifact_path: String::from_str(artifact_path),
    }
}

/// The compile recipe for a lower-cased language name.
pub fn compile_recipe_lowered(l: &str, flags: &Vec<String>) -> (r: Option<CompileRecipe>)
    ensures
        recipe_of(l@, join_spaced(views(flags@))) is None <==> r is None,
        r is Some ==> recipe_matches(r->Some_0, recipe_of(l@, join_spaced(views(flags@)))->Some_0),
{
    let f = join_flags(flags);
    if lang_is_cpp(l) {
        Some(recipe("gcc:latest", "main.cpp", command_around("g++ -static ", &f, " -o /tmp/main /tmp/main.cpp"), "/tmp/main"))
    } else if text_eq(l, "c") {
        Some(recipe("gcc:latest", "main.c", command_around("gcc -static ", &f, " -o /tmp/main /tmp/main.c"), "/tmp/main"))
    } else if text_eq(l, "rust") {
        Some(recipe("rust:latest", "main.rs", command_around("rustc ", &f, " -o /tmp/main /tmp/main.rs"), "/tmp/main"))
    } else if lang_is_go(l) {
        Some(recipe("golang:latest", "main.go", String::from_str("go build -o /tmp/main /tmp/main.go"), "/tmp/main"))
    } else if text_eq(l, "java") {
        let cmd = String::from_str("mkdir -p /tmp/classes && javac /tmp/Main.java -d /tmp/classes && cd /tmp && tar -cf /tmp/java_bundle.tar -C /tmp/classes . && echo '#!/bin/sh\njava -cp /tmp/classes Main' > /tmp/main && chmod +x /tmp/main && tar -rf /tmp/java_bundle.tar -C /tmp main");
        Some(recipe("eclipse-temurin:25", "Main.java", cmd, "/tmp/java_bundle.tar"))
    } else {
        None
    }
}

/// The compile recipe for a language name, compared case-insensitively.
pub fn compile_recipe(language: &str, flags: &Vec<String>) -> (r: Option<CompileRecipe>)
    ensures
        recipe_of(lower_of(language@), join_spaced(views(flags@))) is None <==> r is None,
        r is Some ==> recipe_matches(r->Some_0, recipe_of(lower_of(language@), join_spaced(views(flags@)))->Some_0),
{
    let l = lowercase(language);
    compile_recipe_lowered(l.as_str(), flags)
}

/// What the execute step of a language needs.
pub struct RunProfile {
    pub class: LanguageClass,
    pub image: String,
    /// The name the source file is uploaded under, for interpreted languages.
    pub source_file: String,
    pub run_command: String,
}

/// The execution image for a lower-cased language name.
pub open spec fn run_image_of(l: Seq<char>) -> Seq<char> {
    if is_java(l) {
        "eclipse-temurin:25"@
    } else if is_python(l) {
        "python:3-slim"@
    } else if is_javascript(l) {
        "node:slim"@
    } else if is_ruby(l) {
        "ruby:slim"@
    } else {
        "debian:bookworm-slim"@
    }
}

/// The uploaded source file name for a lower-cased language name.
pub open spec fn source_file_of(l: Seq<char>) -> Seq<char> {
    if is_python(l) {
        "main.py"@
    } else if is_javascript(l) {
        "main.js"@
    } else if is_ruby(l) {
        "main.rb"@
    } else {
        "main.txt"@
    }
}

/// The command that runs one test for a lower-cased language name.
pub open spec fn run_command_of(l: Seq<char>) -> Seq<char> {
    if is_java(l) {
        "java -cp /tmp/classes Main"@
    } else if is_python(l) {
        "python /tmp/main.py"@
    } else if is_javascript(l) {
        "node /tmp/main.js"@
    } else if is_ruby(l) {
        "ruby /tmp/main.rb"@
    } else {
        "/tmp/main"@
    }
}

pub open spec fn profile_matches(p: RunProfile, l: Seq<char>) -> bool {
    &&& p.class == class_of(l)
    &&& p.image@ == run_image_of(l)
    &&& p.source_file@ == source_file_of(l)
    &&& p.run_command@ == run_command_of(l)
}

/// The run profile for a lower-cased language name.
pub fn run_profile_lowered(l: &str) -> (r: RunProfile)
    ensures
        profile_matches(r, l@),
{
    let class = classify_lowered(l);
    let image = if text_eq(l, "java") {
        "eclipse-temurin:25"
    } else if lang_is_python(l) {
        "python:3-slim"
    } else if lang_is_javascript(l) {
        "node:slim"
    } else if text_eq(l, "ruby") {
        "ruby:slim"
    } else {
        "debian:bookworm-slim"
    };
    let source_file = if lang_is_python(l) {
        "main.py"
    } else if lang_is_javascript(l) {
        "main.js"
    } else if text_eq(l, "ruby") {
        "main.rb"
    } else {
        "main.txt"
    };
    let run_command = if text_eq(l, "java") {
        "java -cp /tmp/classes Main"
    } else if lang_is_python(l) {
        "python /tmp/main.py"
    } else if lang_is_javascript(l) {
        "node /tmp/main.js"
    } else if text_eq(l, "ruby") {
        "ruby /tmp/main.rb"
    } else {
        "/tmp/main"
    };
    RunProfile {
        class,
        image: String::from_str(image),
        source_file: String::from_str(source_file),
        run_command: String::from_str(run_command),
    }
}

/// The run profile for a language name, compared case-insensitively.
pub fn run_profile(language: &str) -> (r: RunProfile)
    ensures
        profile_matches(r, lower_of(language@)),
{
    let l = lowercase(language);
    run_profile_lowered(l.as_str())
}

/// The compiler output reported for a language that has no compile step.
pub open spec fn unsupported_message(language: Seq<char>) -> Seq<char> {
    "Unsupported compiled language: "@ + language
        + ". Interpreted languages (python, javascript, ruby) don't need compilation."@
}

pub fn unsupported_compile_message(language: &str) -> (r: String)
    ensures
        r@ == unsupported_message(language@),
{
    let mut m = String::from_str("Unsupported compiled language: ");
    m.append(language);
    m.append(". Interpreted languages (python, javascript, ruby) don't need compilation.");
    m
}

} // verus!
