use zinnia::runtime::module_loader::{
    get_module_root, LoadError, LoadStep, ModuleFile, ModulePath, ModuleSpecifier, ModuleType,
    Resolution, RootError, ZinniaModuleLoader,
};

fn path(components: &[&str]) -> ModulePath {
    ModulePath::new("/".to_string(), components.iter().map(|c| c.to_string()).collect())
}

fn file_url(components: &[&str]) -> ModuleSpecifier {
    ModuleSpecifier::new(
        format!("file:///{}", components.join("/")),
        "file".to_string(),
        Some(path(components)),
    )
}

fn get_js_dir() -> Vec<&'static str> {
    vec!["project", "runtime", "js"]
}

/// Loads a module as the embedding does: asks the loader, gives it the
/// canonical path and the content of the file.
fn load(
    loader: &ZinniaModuleLoader,
    specifier: &ModuleSpecifier,
    referrer: Option<&ModuleSpecifier>,
    canonical: Result<ModulePath, String>,
    content: Result<String, String>,
) -> Result<zinnia::runtime::module_loader::ModuleSource, LoadError> {
    let content = match content {
        Ok(text) => ModuleFile::Content(text),
        Err(cause) => ModuleFile::NotOpened(cause),
    };
    let step = loader.load(specifier, referrer)?;
    let file = match step {
        LoadStep::Canonicalize { path } => {
            match loader.check_sandbox(specifier, referrer, path, canonical)? {
                LoadStep::Read { path } => path,
                other => panic!("unexpected step {other:?}"),
            }
        }
        LoadStep::Read { path } => path,
    };
    loader.finish_load(specifier, &file, content)
}

#[test]
fn allows_import_of_files_inside_sandbox() {
    let mut imported_file = get_js_dir();
    imported_file.push("99_main.js");

    let loader = ZinniaModuleLoader::build(Some(path(&get_js_dir())));
    let result = load(
        &loader,
        &file_url(&imported_file),
        None,
        Ok(path(&imported_file)),
        Ok("/* main */".to_string()),
    )
    .unwrap_or_else(|err| panic!("cannot import {}: {}", imported_file.join("/"), err.message()));

    assert_eq!(result.module_type, ModuleType::JavaScript);
    assert_eq!(result.code, "/* main */");
    assert_eq!(result.specifier, "file:///project/runtime/js/99_main.js");
}

#[test]
fn rejects_import_of_files_outside_sandbox() {
    // project_root is `runtime/tests/js`
    let project_root = ["project", "runtime", "tests", "js"];

    // we are importing file `runtime/js/99_main.js` - it's outside for project_root
    let mut imported_file = get_js_dir();
    imported_file.push("99_main.js");

    let loader = ZinniaModuleLoader::build(Some(path(&project_root)));
    let result = load(
        &loader,
        &file_url(&imported_file),
        None,
        Ok(path(&imported_file)),
        Ok("/* main */".to_string()),
    );

    match result {
        Ok(_) => {
            assert!(
                result.is_err(),
                "Expected import from '{}' to fail, it succeeded instead.",
                imported_file.join("/")
            );
        }
        Err(err) => {
            let msg = err.message();
            assert!(
                msg.contains("Cannot import files outside of the module root directory"),
                "Expected import to fail with the sandboxing error, it failed with a different error instead:\n{}",
                msg,
            );
        }
    }
}

#[test]
fn the_refusal_names_both_canonical_paths_and_the_importer() {
    let loader = ZinniaModuleLoader::build(Some(path(&["sandbox"])));
    let target = file_url(&["sandbox", "link.js"]);
    let importer = file_url(&["sandbox", "main.js"]);
    // a symlink inside the sandbox that points outside of it
    let err = load(&loader, &target, Some(&importer), Ok(path(&["etc", "passwd"])), Ok(String::new()))
        .unwrap_err();
    assert_eq!(
        err.message(),
        "Cannot import files outside of the module root directory.\n\
         Root directory (canonical): /sandbox\n\
         Module file path (canonical): /etc/passwd\n\
         Module URL: file:///sandbox/link.js\n\
         Imported from: file:///sandbox/main.js"
    );
    assert!(err.message().contains("outside of the module root directory"));
}

#[test]
fn a_directory_whose_name_only_begins_like_the_root_is_outside() {
    let loader = ZinniaModuleLoader::build(Some(path(&["sand"])));
    let target = file_url(&["sandbox", "main.js"]);
    let err = load(&loader, &target, None, Ok(path(&["sandbox", "main.js"])), Ok(String::new()))
        .unwrap_err();
    assert!(matches!(err, LoadError::OutsideRoot { .. }));
    // upper and lower case are different names
    let target = file_url(&["Sand", "main.js"]);
    let err = load(&loader, &target, None, Ok(path(&["Sand", "main.js"])), Ok(String::new()))
        .unwrap_err();
    assert!(matches!(err, LoadError::OutsideRoot { .. }));
}

#[test]
fn a_path_on_another_drive_is_outside() {
    let root = ModulePath::new("C:\\".to_string(), vec!["mods".to_string()]);
    let other = ModulePath::new("D:\\".to_string(), vec!["mods".to_string(), "m.js".to_string()]);
    assert!(!other.starts_with(&root));
    let same = ModulePath::new("C:\\".to_string(), vec!["mods".to_string(), "m.js".to_string()]);
    assert!(same.starts_with(&root));
}

#[test]
fn paths_start_with_themselves_and_with_what_is_above_them() {
    let file = path(&["a", "b", "c.js"]);
    assert!(file.starts_with(&path(&["a", "b", "c.js"])));
    assert!(file.starts_with(&path(&["a", "b"])));
    assert!(file.starts_with(&path(&["a"])));
    assert!(file.starts_with(&path(&[])));
    assert!(!file.starts_with(&path(&["a", "b", "c.js", "d"])));
    assert!(!file.starts_with(&path(&["a", "c"])));
    assert!(!file.starts_with(&path(&["b"])));
    assert_eq!(file.display(), "/a/b/c.js");
    assert_eq!(path(&[]).display(), "/");
    assert_eq!(file.duplicate().display(), "/a/b/c.js");
    assert_eq!(file.parent().unwrap().display(), "/a/b");
    assert!(path(&[]).parent().is_none());
}

#[test]
fn without_a_root_every_local_file_is_loaded() {
    let loader = ZinniaModuleLoader::build(None);
    let target = file_url(&["anywhere", "m.js"]);
    assert!(matches!(loader.load(&target, None), Ok(LoadStep::Read { .. })));
    let module = load(&loader, &target, None, Err("unused".to_string()), Ok("1".to_string()));
    assert_eq!(module.unwrap().code, "1");
}

#[test]
fn a_url_that_is_no_local_file_is_refused() {
    let loader = ZinniaModuleLoader::build(Some(path(&["sandbox"])));
    let remote = ModuleSpecifier::new(
        "https://example.com/mod.js".to_string(),
        "https".to_string(),
        None,
    );
    let err = loader.load(&remote, None).unwrap_err();
    assert!(matches!(err, LoadError::UnsupportedScheme { .. }));
    assert!(err.message().contains("outside of the module root directory"));
    assert_eq!(
        err.message(),
        "Cannot import files outside of the module root directory.\n\
         Unsupported scheme: https. Zinnia can import local modules only.\n\
         Module URL: https://example.com/mod.js"
    );
    // the refusal is the same where no root is set
    let open = ZinniaModuleLoader::build(None);
    let importer = file_url(&["sandbox", "main.js"]);
    let err = open.load(&remote, Some(&importer)).unwrap_err();
    assert!(err.message().contains("outside of the module root directory"));
    assert!(err.message().ends_with("\nImported from: file:///sandbox/main.js"));
}

#[test]
fn a_file_that_breaks_off_while_it_is_read_fails_with_the_reason_as_it_came() {
    let loader = ZinniaModuleLoader::build(None);
    let target = file_url(&["sandbox", "m.js"]);
    let err = loader
        .finish_load(&target, &path(&["sandbox", "m.js"]), ModuleFile::NotRead("I/O error".into()))
        .unwrap_err();
    assert!(matches!(err, LoadError::ReadFailed { .. }));
    assert_eq!(err.message(), "I/O error");
}

#[test]
fn the_old_assertion_modules_are_refused_with_a_hint() {
    let loader = ZinniaModuleLoader::build(None);
    for url in [
        "https://deno.land/std@0.177.0/testing/asserts.ts",
        "https://deno.land/std@0.181.0/testing/asserts.ts",
    ] {
        let old = ModuleSpecifier::new(url.to_string(), "https".to_string(), None);
        let importer = file_url(&["sandbox", "main.js"]);
        let err = loader.load(&old, Some(&importer)).unwrap_err();
        assert!(matches!(err, LoadError::Moved { .. }));
        assert_eq!(
            err.message(),
            format!(
                "Zinnia bundles Deno asserts as 'zinnia:assert`. Please update your imports \
                 accordingly.\nModule URL: {url}\nImported from: file:///sandbox/main.js"
            )
        );
    }
}

#[test]
fn a_file_url_without_a_path_is_refused() {
    let loader = ZinniaModuleLoader::build(None);
    let odd = ModuleSpecifier::new("file://host/x".to_string(), "file".to_string(), None);
    let err = loader.load(&odd, None).unwrap_err();
    assert_eq!(
        err.message(),
        "Module specifier cannot be converted to a filepath.\nModule URL: file://host/x"
    );
}

#[test]
fn a_path_that_cannot_be_made_canonical_is_refused() {
    let loader = ZinniaModuleLoader::build(Some(path(&["sandbox"])));
    let target = file_url(&["sandbox", "gone.js"]);
    let err = load(&loader, &target, None, Err("No such file".to_string()), Ok(String::new()))
        .unwrap_err();
    assert_eq!(
        err.message(),
        "Cannot canonicalize module path: No such file.\n\
         Module file path: /sandbox/gone.js\n\
         Module URL: file:///sandbox/gone.js"
    );
}

#[test]
fn a_file_that_cannot_be_read_is_not_found() {
    let loader = ZinniaModuleLoader::build(Some(path(&["sandbox"])));
    let target = file_url(&["sandbox", "m.js"]);
    let err = load(
        &loader,
        &target,
        None,
        Ok(path(&["sandbox", "m.js"])),
        Err("permission denied".to_string()),
    )
    .unwrap_err();
    assert_eq!(err.message(), "Module not found: permission denied. /sandbox/m.js");
}

#[test]
fn the_built_in_modules_are_resolved_by_name() {
    let loader = ZinniaModuleLoader::build(None);
    match loader.resolve("zinnia:test", "file:///main.js") {
        Resolution::BuiltIn(url) => assert_eq!(url, "ext:zinnia_runtime/test.js"),
        other => panic!("unexpected resolution {other:?}"),
    }
    match loader.resolve("zinnia:assert", "file:///main.js") {
        Resolution::BuiltIn(url) => {
            assert_eq!(url, "ext:zinnia_runtime/vendored/asserts.bundle.js")
        }
        other => panic!("unexpected resolution {other:?}"),
    }
    assert!(matches!(loader.resolve("./other.js", "file:///main.js"), Resolution::Import));
    assert!(matches!(loader.resolve("zinnia:tests", "file:///main.js"), Resolution::Import));
    assert!(matches!(loader.resolve("ZINNIA:TEST", "file:///main.js"), Resolution::Import));
}

#[test]
fn the_module_root_is_the_directory_of_the_main_module() {
    let main = file_url(&["project", "mods", "main.js"]);
    assert_eq!(get_module_root(&main).unwrap().display(), "/project/mods");
    let remote = ModuleSpecifier::new("https://x/y.js".to_string(), "https".to_string(), None);
    let err = get_module_root(&remote).unwrap_err();
    assert_eq!(err, RootError::NotALocalPath);
    assert_eq!(err.message(), "Invalid main module specifier: not a local path.");
    let root = ModuleSpecifier::new("file:///".to_string(), "file".to_string(), Some(path(&[])));
    let err = get_module_root(&root).unwrap_err();
    assert_eq!(err, RootError::NoParent);
    assert_eq!(err.message(), "Invalid main module specifier: it has no parent directory!");
}
