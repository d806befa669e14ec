//! What the router program is built from: the names of the files to look
//! for, and the two modules that tell it about the project's middleware.

use crate::json::{array_text, json_array_text};
use vstd::prelude::*;
use vstd::string::*;

verus! {

/// A module that exists only in memory: where it is said to lie, relative
/// to the project, and its source.
#[derive(Debug, Clone, Default)]
pub struct VirtualModule {
    pub path: String,
    pub content: String,
}

/// What a [`VirtualModule`] holds.
pub struct ModuleView {
    pub path: Seq<char>,
    pub content: Seq<char>,
}

impl View for VirtualModule {
    type V = ModuleView;

    open spec fn view(&self) -> ModuleView {
        ModuleView { path: self.path@, content: self.content@ }
    }
}

/// An asset that the router program is given under a name.
#[derive(Debug, Clone)]
pub enum InnerAsset {
    /// The project's middleware, compiled for the edge runtime.
    EdgeMiddleware,
    /// A module written out here.
    Virtual(VirtualModule),
}

/// What an [`InnerAsset`] holds.
pub enum AssetView {
    EdgeMiddleware,
    Virtual(ModuleView),
}

impl View for InnerAsset {
    type V = AssetView;

    open spec fn view(&self) -> AssetView {
        match self {
            InnerAsset::EdgeMiddleware => AssetView::EdgeMiddleware,
            InnerAsset::Virtual(module) => AssetView::Virtual(module@),
        }
    }
}

/// The names under which a project's configuration may lie, in the order in
/// which they are tried.
pub open spec fn config_file_names() -> Seq<Seq<char>> {
    seq!["next.config.mjs"@, "next.config.js"@]
}

/// The names under which a project's middleware may lie, in the order in
/// which they are tried: `middleware.` with each extension, then
/// `src/middleware.` with each.
pub open spec fn middleware_file_names(extensions: Seq<Seq<char>>) -> Seq<Seq<char>> {
    Seq::new(extensions.len(), |i: int| "middleware."@ + extensions[i]) + Seq::new(
        extensions.len(),
        |i: int| "src/middleware."@ + extensions[i],
    )
}

/// The matcher of a project: what its middleware declares, and nothing
/// where it has no middleware.
pub open spec fn matcher_of(declared: Option<Seq<Seq<char>>>) -> Seq<Seq<char>> {
    match declared {
        Some(patterns) => patterns,
        None => Seq::empty(),
    }
}

/// The module that stands for the manifest where there is no middleware:
/// it exports an empty list of chunks.
pub open spec fn empty_manifest_module() -> ModuleView {
    ModuleView { path: "middleware.js"@, content: "export default [];"@ }
}

/// The module that exports `matcher`.
pub open spec fn matcher_module(matcher: Seq<Seq<char>>) -> ModuleView {
    ModuleView { path: "middleware_config.js"@, content: config_module_text(matcher) }
}

/// The manifest of a project's middleware chunks: the compiled middleware,
/// and a module that exports an empty list where there is no middleware.
pub open spec fn manifest_of(declared: Option<Seq<Seq<char>>>) -> AssetView {
    match declared {
        Some(_) => AssetView::EdgeMiddleware,
        None => AssetView::Virtual(empty_manifest_module()),
    }
}

/// The source of the module that exports the matcher.
pub open spec fn config_module_text(matcher: Seq<Seq<char>>) -> Seq<char> {
    "export default {\"matcher\":"@ + json_array_text(matcher) + "};"@
}

/// The source of the module that exports an empty matcher.
pub open spec fn empty_matcher_text() -> Seq<char> {
    "export default {\"matcher\":"@ + "[]"@ + "};"@
}

/// The assets of the router program, each under its name: the manifest,
/// then the module that exports the matcher.
pub open spec fn assets_of(declared: Option<Seq<Seq<char>>>) -> Seq<(Seq<char>, AssetView)> {
    seq![
        ("MIDDLEWARE_CHUNK_GROUP"@, manifest_of(declared)),
        ("MIDDLEWARE_CONFIG"@, AssetView::Virtual(matcher_module(matcher_of(declared)))),
    ]
}

/// A list of named assets, by what it holds.
pub open spec fn assets_view(assets: Seq<(String, InnerAsset)>) -> Seq<(Seq<char>, AssetView)> {
    Seq::new(assets.len(), |i: int| (assets[i].0@, assets[i].1@))
}

/// The names under which a project's configuration may lie.
pub fn next_configs() -> (names: Vec<String>)
    ensures
        names.deep_view() == config_file_names(),
{
    let mut names: Vec<String> = Vec::new();
    names.push("next.config.mjs".to_owned());
    names.push("next.config.js".to_owned());
    assert(names.deep_view() =~= config_file_names());
    names
}

/// Appends to `files` the name `prefix` with each extension.
fn push_with_extensions(files: &mut Vec<String>, prefix: &str, extensions: &Vec<String>)
    ensures
        final(files).deep_view() == old(files).deep_view() + Seq::new(
            extensions@.len(),
            |i: int| prefix@ + extensions@[i]@,
        ),
{
    let ghost before = files.deep_view();
    let mut i: usize = 0;
    assert(files.deep_view() =~= before + Seq::new(0, |k: int| prefix@ + extensions@[k]@));
    while i < extensions.len()
        invariant
            i <= extensions.len(),
            files@.len() == before.len() + i,
            files.deep_view() == before + Seq::new(i as nat, |k: int| prefix@ + extensions@[k]@),
        decreases extensions.len() - i,
    {
        let ghost earlier = files@;
        let mut name = prefix.to_owned();
        name.append(extensions[i].as_str());
        files.push(name);
        i += 1;
        assert forall|k: int| 0 <= k < files@.len() implies files.deep_view()[k] == (before
            + Seq::new(i as nat, |k: int| prefix@ + extensions@[k]@))[k] by {
            if k < earlier.len() {
                assert(files@[k] == earlier[k]);
                assert(files.deep_view()[k] == earlier[k]@);
                assert((before + Seq::new((i - 1) as nat, |k: int| prefix@ + extensions@[k]@))[k]
                    == earlier[k]@);
            }
        }
        assert(files.deep_view() =~= before + Seq::new(
            i as nat,
            |k: int| prefix@ + extensions@[k]@,
        ));
    }
}

/// The names under which a project's middleware may lie, given the
/// extensions that its pages may have.
pub fn middleware_files(page_extensions: &Vec<String>) -> (files: Vec<String>)
    ensures
        files.deep_view() == middleware_file_names(page_extensions.deep_view()),
{
    let mut files: Vec<String> = Vec::new();
    push_with_extensions(&mut files, "middleware.", page_extensions);
    push_with_extensions(&mut files, "src/middleware.", page_extensions);
    assert(files.deep_view() =~= middleware_file_names(page_extensions.deep_view()));
    files
}

/// The matcher of a project, given what its middleware declares: `None`
/// where the project has no middleware.
pub fn matcher_config(declared: Option<Vec<String>>) -> (matcher: Vec<String>)
    ensures
        matcher.deep_view() == matcher_of(declared_view(declared)),
{
    match declared {
        Some(patterns) => patterns,
        None => {
            let matcher: Vec<String> = Vec::new();
            assert(matcher.deep_view() =~= Seq::<Seq<char>>::empty());
            matcher
        },
    }
}

/// What a middleware declares, by the characters it holds.
pub open spec fn declared_view(declared: Option<Vec<String>>) -> Option<Seq<Seq<char>>> {
    match declared {
        Some(patterns) => Some(patterns.deep_view()),
        None => None,
    }
}

/// The module that exports the matcher.
pub fn config_module(matcher: &Vec<String>) -> (module: VirtualModule)
    ensures
        module@ == matcher_module(matcher.deep_view()),
        matcher@.len() == 0 ==> module.content@ == empty_matcher_text(),
{
    let mut content = "export default {\"matcher\":".to_owned();
    let list = array_text(matcher);
    content.append(list.as_str());
    content.append("};");
    VirtualModule { path: "middleware_config.js".to_owned(), content }
}

/// The assets of the router program, given what the project's middleware
/// declares as its matcher: `None` where the project has no middleware.
pub fn config_assets(declared: Option<Vec<String>>) -> (assets: Vec<(String, InnerAsset)>)
    ensures
        assets_view(assets@) == assets_of(declared_view(declared)),
        matcher_of(declared_view(declared)).len() == 0 ==> assets@[1].1@ == AssetView::Virtual(
            ModuleView { path: "middleware_config.js"@, content: empty_matcher_text() },
        ),
{
    let manifest = match &declared {
        Some(_) => InnerAsset::EdgeMiddleware,
        None => InnerAsset::Virtual(
            VirtualModule {
                path: "middleware.js".to_owned(),
                content: "export default [];".to_owned(),
            },
        ),
    };
    let matcher = matcher_config(declared);
    let config = InnerAsset::Virtual(config_module(&matcher));
    let mut assets: Vec<(String, InnerAsset)> = Vec::new();
    assets.push(("MIDDLEWARE_CHUNK_GROUP".to_owned(), manifest));
    assets.push(("MIDDLEWARE_CONFIG".to_owned(), config));
    assert(assets_view(assets@) =~= assets_of(declared_view(declared)));
    assets
}

/// Without a middleware the manifest is the module that exports an empty
/// list, and the matcher is empty.
pub proof fn no_middleware_gives_empty_manifest()
    ensures
        matcher_of(None) == Seq::<Seq<char>>::empty(),
        manifest_of(None) == AssetView::Virtual(empty_manifest_module()),
        assets_of(None) == seq![
            ("MIDDLEWARE_CHUNK_GROUP"@, AssetView::Virtual(empty_manifest_module())),
            ("MIDDLEWARE_CONFIG"@, AssetView::Virtual(matcher_module(Seq::empty()))),
        ],
{
}

} // verus!
