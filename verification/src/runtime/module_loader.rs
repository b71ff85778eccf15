//! Resolution and loading of modules inside a sandbox: every local module
//! must lie under the module root.

use crate::text::{contains_text, join, joined, lemma_contains_middle, str_eq, texts_of};
use vstd::prelude::*;
use vstd::string::StringExecFns;

verus! {

/// A path, apart from how it is stored.
pub struct PathView {
    /// What stands before the first component: the root directory, with a
    /// device or a drive where the platform has them. Empty for a relative
    /// path.
    pub root: Seq<char>,
    /// The names of the directories and of the file, from the outermost in.
    pub components: Seq<Seq<char>>,
}

impl PathView {
    /// Whether this path is `base` or lies under it: both begin alike, and
    /// the components of `base` are the first components of this path.
    pub open spec fn starts_with(self, base: PathView) -> bool {
        &&& self.root == base.root
        &&& base.components.len() <= self.components.len()
        &&& forall|i: int|
            0 <= i < base.components.len() ==> self.components[i] == base.components[i]
    }

    /// The path as text, with `/` between its components.
    pub open spec fn display(self) -> Seq<char> {
        self.root + joined(self.components, "/"@)
    }

    /// The directory that holds the last component.
    pub open spec fn parent(self) -> Option<PathView> {
        if self.components.len() == 0 {
            None
        } else {
            Some(PathView { root: self.root, components: self.components.drop_last() })
        }
    }
}

/// A path in the file system, taken apart into its components.
#[derive(Debug)]
pub struct ModulePath {
    root: String,
    components: Vec<String>,
}

impl View for ModulePath {
    type V = PathView;

    closed spec fn view(&self) -> PathView {
        PathView { root: self.root@, components: texts_of(self.components@) }
    }
}

/// The view of an optional path.
pub open spec fn opt_path(path: Option<ModulePath>) -> Option<PathView> {
    match path {
        Some(p) => Some(p@),
        None => None,
    }
}

impl ModulePath {
    /// The path that begins with `root` and goes through `components`.
    pub fn new(root: String, components: Vec<String>) -> (path: ModulePath)
        ensures
            path@ == (PathView { root: root@, components: texts_of(components@) }),
    {
        ModulePath { root, components }
    }

    /// A copy of the path.
    pub fn duplicate(&self) -> (copy: ModulePath)
        ensures
            copy@ == self@,
    {
        let mut components: Vec<String> = Vec::new();
        let mut i: usize = 0;
        while i < self.components.len()
            invariant
                i <= self.components@.len(),
                texts_of(components@) == texts_of(self.components@).subrange(0, i as int),
            decreases self.components@.len() - i,
        {
            let ghost before = components@;
            let component = self.components[i].clone();
            assert(component@ == self.components@[i as int]@);
            components.push(component);
            assert(components@ == before.push(component));
            assert(texts_of(components@) =~= texts_of(before).push(component@));
            assert(texts_of(components@) =~= texts_of(self.components@).subrange(0, i + 1));
            i = i + 1;
        }
        assert(texts_of(components@) =~= texts_of(self.components@));
        ModulePath { root: self.root.clone(), components }
    }

    /// Whether this path is `base` or lies under it.
    pub fn starts_with(&self, base: &ModulePath) -> (inside: bool)
        ensures
            inside == self@.starts_with(base@),
    {
        if !(self.root == base.root) {
            return false;
        }
        if base.components.len() > self.components.len() {
            return false;
        }
        let mut i: usize = 0;
        while i < base.components.len()
            invariant
                i <= base.components@.len(),
                base.components@.len() <= self.components@.len(),
                forall|k: int| 0 <= k < i ==> self@.components[k] == base@.components[k],
            decreases base.components@.len() - i,
        {
            if !(self.components[i] == base.components[i]) {
                assert(self@.components[i as int] != base@.components[i as int]);
                return false;
            }
            i = i + 1;
        }
        true
    }

    /// The path as text, with `/` between its components.
    pub fn display(&self) -> (text: String)
        ensures
            text@ == self@.display(),
    {
        let mut text = self.root.clone();
        let tail = join(self.components.as_slice(), "/");
        text.append(tail.as_str());
        text
    }

    /// The directory that holds the last component; `None` for a path
    /// without components.
    pub fn parent(&self) -> (parent: Option<ModulePath>)
        ensures
            opt_path(parent) == self@.parent(),
    {
        if self.components.len() == 0 {
            return None;
        }
        let mut copy = self.duplicate();
        let _ = copy.components.pop();
        assert(texts_of(copy.components@) =~= texts_of(self.components@).drop_last());
        Some(copy)
    }
}

/// The address of a module: its URL, the scheme of the URL and, where the URL
/// names a local file, the path of that file.
#[derive(Debug)]
pub struct ModuleSpecifier {
    url: String,
    scheme: String,
    file_path: Option<ModulePath>,
}

/// A module specifier, apart from how it is stored.
pub struct SpecifierView {
    pub url: Seq<char>,
    pub scheme: Seq<char>,
    pub file_path: Option<PathView>,
}

impl View for ModuleSpecifier {
    type V = SpecifierView;

    closed spec fn view(&self) -> SpecifierView {
        SpecifierView { url: self.url@, scheme: self.scheme@, file_path: opt_path(self.file_path) }
    }
}

impl ModuleSpecifier {
    /// The specifier with the given URL, scheme and file path.
    pub fn new(url: String, scheme: String, file_path: Option<ModulePath>) -> (specifier: Self)
        ensures
            specifier@ == (SpecifierView {
                url: url@,
                scheme: scheme@,
                file_path: opt_path(file_path),
            }),
    {
        ModuleSpecifier { url, scheme, file_path }
    }

    /// The URL as text.
    pub fn as_str(&self) -> (url: &str)
        ensures
            url@ == self@.url,
    {
        self.url.as_str()
    }
}

/// The kind of source that a module holds.
#[derive(Clone, Copy, Debug, PartialEq, Eq, Structural)]
pub enum ModuleType {
    JavaScript,
}

/// A loaded module.
#[derive(Debug)]
pub struct ModuleSource {
    pub module_type: ModuleType,
    pub code: String,
    pub specifier: String,
}

/// Why a module was not loaded.
#[derive(Debug)]
pub enum LoadError {
    /// The module is one that the runtime now bundles under another name.
    Moved { details: String },
    /// The URL is not one of a local file: whatever it names lies outside
    /// the module root.
    UnsupportedScheme { scheme: String, details: String },
    /// The URL names no path in the file system.
    NotAFilePath { details: String },
    /// The path of the module could not be made canonical.
    CannotCanonicalize { error: String, path: String, details: String },
    /// The module lies outside the module root.
    OutsideRoot { root: String, module: String, details: String },
    /// The file of the module could not be opened.
    NotFound { error: String, path: String },
    /// The file of the module was opened and could not be read to its end.
    /// The message is the reason as it came.
    ReadFailed { error: String },
}

/// The test-runner module that the runtime brings along.
pub open spec fn test_module_url() -> Seq<char> {
    "ext:zinnia_runtime/test.js"@
}

/// The assertion library that the runtime brings along.
pub open spec fn assert_module_url() -> Seq<char> {
    "ext:zinnia_runtime/vendored/asserts.bundle.js"@
}

/// Whether `url` is one of the remote assertion modules that modules written
/// for earlier versions import.
pub open spec fn is_legacy_asserts(url: Seq<char>) -> bool {
    url == "https://deno.land/std@0.177.0/testing/asserts.ts"@ || url
        == "https://deno.land/std@0.181.0/testing/asserts.ts"@
}

/// The words by which the refusal of a module outside the root is known.
pub open spec fn outside_marker() -> Seq<char> {
    "outside of the module root directory"@
}

/// What is said of a module in every error: its URL and where it was
/// imported from.
pub open spec fn details_text(url: Seq<char>, referrer: Option<Seq<char>>) -> Seq<char> {
    "\nModule URL: "@ + url + match referrer {
        Some(r) => "\nImported from: "@ + r,
        None => Seq::empty(),
    }
}

impl LoadError {
    /// The message of the error.
    pub open spec fn spec_message(self) -> Seq<char> {
        match self {
            LoadError::Moved { details } => "Zinnia bundles Deno asserts as 'zinnia:assert`. Please update your imports accordingly."@
                + details@,
            LoadError::UnsupportedScheme { scheme, details } => "Cannot import files "@
                + outside_marker() + (".\nUnsupported scheme: "@ + scheme@
                + ". Zinnia can import local modules only."@ + details@),
            LoadError::NotAFilePath { details } => "Module specifier cannot be converted to a filepath."@
                + details@,
            LoadError::CannotCanonicalize { error, path, details } => "Cannot canonicalize module path: "@
                + error@ + ".\nModule file path: "@ + path@ + details@,
            LoadError::OutsideRoot { root, module, details } => "Cannot import files "@
                + outside_marker() + (".\nRoot directory (canonical): "@ + root@
                + "\nModule file path (canonical): "@ + module@ + details@),
            LoadError::NotFound { error, path } => "Module not found: "@ + error@ + ". "@ + path@,
            LoadError::ReadFailed { error } => error@,
        }
    }

    /// The message of the error.
    pub fn message(&self) -> (text: String)
        ensures
            text@ == self.spec_message(),
    {
        match self {
            LoadError::Moved { details } => {
                let mut text = String::from_str(
                    "Zinnia bundles Deno asserts as 'zinnia:assert`. Please update your imports accordingly.",
                );
                text.append(details.as_str());
                text
            },
            LoadError::UnsupportedScheme { scheme, details } => {
                let mut text = String::from_str("Cannot import files ");
                text.append("outside of the module root directory");
                text.append(".\nUnsupported scheme: ");
                text.append(scheme.as_str());
                text.append(". Zinnia can import local modules only.");
                text.append(details.as_str());
                assert(text@ =~= self.spec_message());
                text
            },
            LoadError::NotAFilePath { details } => {
                let mut text = String::from_str("Module specifier cannot be converted to a filepath.");
                text.append(details.as_str());
                text
            },
            LoadError::CannotCanonicalize { error, path, details } => {
                let mut text = String::from_str("Cannot canonicalize module path: ");
                text.append(error.as_str());
                text.append(".\nModule file path: ");
                text.append(path.as_str());
                text.append(details.as_str());
                text
            },
            LoadError::OutsideRoot { root, module, details } => {
                let mut text = String::from_str("Cannot import files ");
                text.append("outside of the module root directory");
                text.append(".\nRoot directory (canonical): ");
                text.append(root.as_str());
                text.append("\nModule file path (canonical): ");
                text.append(module.as_str());
                text.append(details.as_str());
                assert(text@ =~= self.spec_message());
                text
            },
            LoadError::NotFound { error, path } => {
                let mut text = String::from_str("Module not found: ");
                text.append(error.as_str());
                text.append(". ");
                text.append(path.as_str());
                text
            },
            LoadError::ReadFailed { error } => error.clone(),
        }
    }
}

/// The refusal of a module outside the root says so in the words by which it
/// is known, whatever the root, the module and the importer are.
pub proof fn lemma_outside_root_message_has_marker(error: LoadError)
    requires
        error is OutsideRoot,
    ensures
        contains_text(error.spec_message(), outside_marker()),
{
    match error {
        LoadError::OutsideRoot { root, module, details } => {
            lemma_contains_middle(
                "Cannot import files "@,
                outside_marker(),
                ".\nRoot directory (canonical): "@ + root@ + "\nModule file path (canonical): "@
                    + module@ + details@,
            );
        },
        _ => {},
    }
}

/// The refusal of a URL that is no local file says that the module lies
/// outside the module root, in the words by which that refusal is known.
pub proof fn lemma_unsupported_scheme_message_has_marker(error: LoadError)
    requires
        error is UnsupportedScheme,
    ensures
        contains_text(error.spec_message(), outside_marker()),
{
    match error {
        LoadError::UnsupportedScheme { scheme, details } => {
            lemma_contains_middle(
                "Cannot import files "@,
                outside_marker(),
                ".\nUnsupported scheme: "@ + scheme@ + ". Zinnia can import local modules only."@
                    + details@,
            );
        },
        _ => {},
    }
}

/// How a specifier is resolved.
#[derive(Debug)]
pub enum Resolution {
    /// The specifier names a module that the runtime brings along, at this
    /// URL.
    BuiltIn(String),
    /// The specifier is an ordinary import, to be resolved as a URL against
    /// the URL of the importing module.
    Import,
}

/// What opening and reading the file of a module gave.
#[derive(Debug)]
pub enum ModuleFile {
    /// The file was read and holds this text.
    Content(String),
    /// The file could not be opened, for the given reason.
    NotOpened(String),
    /// The file was opened and could not be read to its end, for the given
    /// reason.
    NotRead(String),
}

/// What loading needs next from the file system.
#[derive(Debug)]
pub enum LoadStep {
    /// The canonical form of `path`, to be checked against the module root.
    Canonicalize { path: ModulePath },
    /// The content of the file at `path`.
    Read { path: ModulePath },
}

/// The loader of modules, with the canonical root under which every local
/// module must lie; without a root every local module is loaded.
#[derive(Debug)]
pub struct ZinniaModuleLoader {
    module_root: Option<ModulePath>,
}

impl ZinniaModuleLoader {
    /// The canonical module root of the loader.
    pub closed spec fn root(&self) -> Option<PathView> {
        opt_path(self.module_root)
    }

    /// A loader for the canonical root `module_root`.
    pub fn build(module_root: Option<ModulePath>) -> (loader: Self)
        ensures
            loader.root() == opt_path(module_root),
    {
        Self { module_root }
    }

    /// Says how `specifier` is resolved. The names `zinnia:test` and
    /// `zinnia:assert` stand for modules that the runtime brings along; every
    /// other specifier is an ordinary import.
    pub fn resolve(&self, specifier: &str, referrer: &str) -> (resolution: Resolution)
        ensures
            match resolution {
                Resolution::BuiltIn(url) => (specifier@ == "zinnia:test"@ && url@
                    == test_module_url()) || (specifier@ == "zinnia:assert"@ && url@
                    == assert_module_url()),
                Resolution::Import => specifier@ != "zinnia:test"@ && specifier@
                    != "zinnia:assert"@,
            },
    {
        proof {
            reveal_strlit("zinnia:test");
            reveal_strlit("zinnia:assert");
        }
        if str_eq(specifier, "zinnia:test") {
            Resolution::BuiltIn(String::from_str("ext:zinnia_runtime/test.js"))
        } else if str_eq(specifier, "zinnia:assert") {
            Resolution::BuiltIn(String::from_str("ext:zinnia_runtime/vendored/asserts.bundle.js"))
        } else {
            Resolution::Import
        }
    }

    /// What is said of a module in every error.
    fn details(module_specifier: &ModuleSpecifier, maybe_referrer: Option<&ModuleSpecifier>) -> (text:
        String)
        ensures
            text@ == details_text(module_specifier@.url, referrer_url(maybe_referrer)),
    {
        let mut msg = String::from_str("\nModule URL: ");
        msg.append(module_specifier.as_str());
        if let Some(referrer) = maybe_referrer {
            msg.append("\nImported from: ");
            msg.append(referrer.as_str());
            assert(msg@ =~= details_text(module_specifier@.url, referrer_url(maybe_referrer)));
        } else {
            assert(msg@ =~= details_text(module_specifier@.url, referrer_url(maybe_referrer)));
        }
        msg
    }

    /// Begins the loading of a module: decides from its specifier alone
    /// whether it may be loaded at all, and says what is needed next. A
    /// module that moved into the runtime is refused with a hint. A URL that
    /// is not one of a local file is refused as lying outside the module root,
    /// and nothing is fetched or read for it.
    pub fn load(&self, module_specifier: &ModuleSpecifier, maybe_referrer: Option<&ModuleSpecifier>) -> (step:
        Result<LoadStep, LoadError>)
        ensures
            match step {
                Err(LoadError::Moved { details }) => is_legacy_asserts(module_specifier@.url)
                    && details@ == details_text(module_specifier@.url, referrer_url(maybe_referrer)),
                Err(LoadError::UnsupportedScheme { scheme, details }) => !is_legacy_asserts(
                    module_specifier@.url,
                ) && module_specifier@.scheme != "file"@ && scheme@ == module_specifier@.scheme
                    && details@ == details_text(module_specifier@.url, referrer_url(maybe_referrer))
                    && contains_text(step->Err_0.spec_message(), outside_marker()),
                Err(LoadError::NotAFilePath { details }) => !is_legacy_asserts(
                    module_specifier@.url,
                ) && module_specifier@.scheme == "file"@ && module_specifier@.file_path is None
                    && details@ == details_text(module_specifier@.url, referrer_url(maybe_referrer)),
                Err(_) => false,
                Ok(step) => !is_legacy_asserts(module_specifier@.url) && module_specifier@.scheme
                    == "file"@ && module_specifier@.file_path is Some && match step {
                    LoadStep::Canonicalize { path } => self.root() is Some && Some(path@)
                        == module_specifier@.file_path,
                    LoadStep::Read { path } => self.root() is None && Some(path@)
                        == module_specifier@.file_path,
                },
            },
            (!is_legacy_asserts(module_specifier@.url) && module_specifier@.scheme != "file"@) ==> (
            step matches Err(e) && e is UnsupportedScheme && contains_text(
                e.spec_message(),
                outside_marker(),
            )),
    {
        let spec_str = module_specifier.as_str();
        if str_eq(spec_str, "https://deno.land/std@0.177.0/testing/asserts.ts") || str_eq(
            spec_str,
            "https://deno.land/std@0.181.0/testing/asserts.ts",
        ) {
            return Err(LoadError::Moved { details: Self::details(module_specifier, maybe_referrer) });
        }
        if !str_eq(module_specifier.scheme.as_str(), "file") {
            let refusal = LoadError::UnsupportedScheme {
                scheme: module_specifier.scheme.clone(),
                details: Self::details(module_specifier, maybe_referrer),
            };
            proof {
                lemma_unsupported_scheme_message_has_marker(refusal);
            }
            return Err(refusal);
        }
        let local_path = match &module_specifier.file_path {
            Some(path) => path.duplicate(),
            None => {
                return Err(
                    LoadError::NotAFilePath {
                        details: Self::details(module_specifier, maybe_referrer),
                    },
                );
            },
        };
        match &self.module_root {
            Some(_) => Ok(LoadStep::Canonicalize { path: local_path }),
            None => Ok(LoadStep::Read { path: local_path }),
        }
    }

    /// Checks the canonical path of a module against the module root. The
    /// module is refused where its path could not be made canonical and
    /// where its canonical path does not lie under the canonical root; else
    /// the file at `local_path` is to be read.
    pub fn check_sandbox(
        &self,
        module_specifier: &ModuleSpecifier,
        maybe_referrer: Option<&ModuleSpecifier>,
        local_path: ModulePath,
        canonical: Result<ModulePath, String>,
    ) -> (step: Result<LoadStep, LoadError>)
        ensures
            self.root() is None ==> (step matches Ok(LoadStep::Read { path }) && path == local_path),
            self.root() is Some ==> match step {
                Err(LoadError::CannotCanonicalize { error, path, details }) => canonical
                    == Err::<ModulePath, String>(error) && path@ == local_path@.display()
                    && details@ == details_text(module_specifier@.url, referrer_url(maybe_referrer)),
                Err(LoadError::OutsideRoot { root, module, details }) => canonical matches Ok(c)
                    && !c@.starts_with(self.root().unwrap()) && root@
                    == self.root().unwrap().display() && module@ == c@.display() && details@
                    == details_text(module_specifier@.url, referrer_url(maybe_referrer)),
                Err(_) => false,
                Ok(LoadStep::Read { path }) => canonical matches Ok(c) && c@.starts_with(
                    self.root().unwrap(),
                ) && path == local_path,
                Ok(_) => false,
            },
            (canonical matches Ok(c) && self.root() is Some && !c@.starts_with(
                self.root().unwrap(),
            )) ==> (step matches Err(e) && e is OutsideRoot && contains_text(
                e.spec_message(),
                outside_marker(),
            )),
            (canonical matches Ok(c) && self.root() is Some && c@.starts_with(self.root().unwrap()))
                ==> step is Ok,
    {
        let canonical_root = match &self.module_root {
            Some(root) => root,
            None => {
                return Ok(LoadStep::Read { path: local_path });
            },
        };
        let canonical_module = match canonical {
            Ok(path) => path,
            Err(error) => {
                return Err(
                    LoadError::CannotCanonicalize {
                        error,
                        path: local_path.display(),
                        details: Self::details(module_specifier, maybe_referrer),
                    },
                );
            },
        };
        if !canonical_module.starts_with(canonical_root) {
            let refusal = LoadError::OutsideRoot {
                root: canonical_root.display(),
                module: canonical_module.display(),
                details: Self::details(module_specifier, maybe_referrer),
            };
            proof {
                lemma_outside_root_message_has_marker(refusal);
            }
            return Err(refusal);
        }
        Ok(LoadStep::Read { path: local_path })
    }

    /// Ends the loading of a module with what opening and reading its file
    /// gave: the source of a JavaScript module, the failure to find the file,
    /// or the failure to read it.
    pub fn finish_load(
        &self,
        module_specifier: &ModuleSpecifier,
        local_path: &ModulePath,
        file: ModuleFile,
    ) -> (module: Result<ModuleSource, LoadError>)
        ensures
            match file {
                ModuleFile::Content(code) => module matches Ok(source) && source.code == code
                    && source.module_type == ModuleType::JavaScript && source.specifier@
                    == module_specifier@.url,
                ModuleFile::NotOpened(cause) => module matches Err(
                    LoadError::NotFound { error, path },
                ) && error == cause && path@ == local_path@.display(),
                ModuleFile::NotRead(cause) => module matches Err(LoadError::ReadFailed { error })
                    && error == cause,
            },
    {
        match file {
            ModuleFile::Content(code) => Ok(
                ModuleSource {
                    module_type: ModuleType::JavaScript,
                    code,
                    specifier: module_specifier.url.clone(),
                },
            ),
            ModuleFile::NotOpened(error) => Err(
                LoadError::NotFound { error, path: local_path.display() },
            ),
            ModuleFile::NotRead(error) => Err(LoadError::ReadFailed { error }),
        }
    }
}

/// The URL of the importing module, if there is one.
pub open spec fn referrer_url(referrer: Option<&ModuleSpecifier>) -> Option<Seq<char>> {
    match referrer {
        Some(r) => Some(r@.url),
        None => None,
    }
}

/// Why the module root could not be told from the main module.
#[derive(Clone, Copy, Debug, PartialEq, Eq, Structural)]
pub enum RootError {
    /// The main module is no local file.
    NotALocalPath,
    /// The path of the main module has no directory above it.
    NoParent,
}

impl RootError {
    /// The message of the error.
    pub open spec fn spec_message(self) -> Seq<char> {
        match self {
            RootError::NotALocalPath => "Invalid main module specifier: not a local path."@,
            RootError::NoParent => "Invalid main module specifier: it has no parent directory!"@,
        }
    }

    /// The message of the error.
    pub fn message(&self) -> (text: String)
        ensures
            text@ == self.spec_message(),
    {
        match self {
            RootError::NotALocalPath => String::from_str(
                "Invalid main module specifier: not a local path.",
            ),
            RootError::NoParent => String::from_str(
                "Invalid main module specifier: it has no parent directory!",
            ),
        }
    }
}

/// The directory that is to become the module root for the main module
/// `main_js_module`: the one that holds its file. It still has to be made
/// canonical.
pub fn get_module_root(main_js_module: &ModuleSpecifier) -> (root: Result<ModulePath, RootError>)
    ensures
        match root {
            Ok(dir) => main_js_module@.file_path matches Some(path) && path.parent() == Some(dir@),
            Err(RootError::NotALocalPath) => main_js_module@.file_path is None,
            Err(RootError::NoParent) => main_js_module@.file_path matches Some(path)
                && path.parent() is None,
        },
{
    match &main_js_module.file_path {
        None => Err(RootError::NotALocalPath),
        Some(path) => match path.parent() {
            Some(dir) => Ok(dir),
            None => Err(RootError::NoParent),
        },
    }
}

} // verus!
