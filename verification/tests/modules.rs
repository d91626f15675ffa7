use hemtt::addons::Location;
use hemtt::commands::check::{execute, Command};
use hemtt::common::error::Error;
use hemtt::common::reporting::{Mapping, Processed};
use hemtt::config::analyze::lints::c01_invalid_value::{
    is_from_macro, run, CodeC01InvalidValue, CodeC01InvalidValueMacro, Finding,
    LintC01InvalidValue, Severity,
};
use hemtt::executor::{Executor, ModuleKind, PreservePrevious};
use hemtt::modules::pbo::{
    archive_name, compile_patterns, entry_kind, excluded, holds_prefix, is_prefix_file,
    matches_any, relative_path, skipped_by_name, sort_entry, target_folders, Collapse, Entry,
    Matching,
};
use hemtt::modules::rapifier::{
    can_rapify, is_stray_cpp, output, rapifies, rapify, selects, warns_of_cpp, Action, Event,
    Output, Preprocess, Progress, Rapifier,
};

fn strings(items: &[&str]) -> Vec<String> {
    items.iter().map(|s| s.to_string()).collect()
}

#[test]
fn archives_go_to_the_folder_of_their_addon() {
    for collapse in [Collapse::Yes, Collapse::No] {
        for folders in [true, false] {
            assert_eq!(
                target_folders(collapse, Location::Addons, folders, "abe_main"),
                strings(&["addons", "abe_main"])
            );
        }
    }
    assert_eq!(
        target_folders(Collapse::Yes, Location::Optionals, true, "abe_extra"),
        strings(&["addons", "abe_extra"])
    );
    assert_eq!(
        target_folders(Collapse::Yes, Location::Optionals, false, "abe_extra"),
        strings(&["addons", "abe_extra"])
    );
    assert_eq!(
        target_folders(Collapse::No, Location::Optionals, true, "abe_extra"),
        strings(&["optionals", "@abe_extra", "addons", "abe_extra"])
    );
    assert_eq!(
        target_folders(Collapse::No, Location::Optionals, false, "abe_extra"),
        strings(&["optionals", "abe_extra"])
    );
    assert_eq!(Location::Addons.folder(), "addons");
    assert_eq!(Location::Optionals.folder(), "optionals");
}

#[test]
fn files_are_sorted_into_the_archive() {
    assert_eq!(entry_kind("config.cpp", true, false, false), Entry::Skip);
    assert_eq!(entry_kind("config.cpp", false, false, false), Entry::File);
    assert_eq!(entry_kind("addon.toml", false, false, false), Entry::Skip);
    assert_eq!(entry_kind("script.sqf", true, true, true), Entry::Skip);
    assert_eq!(entry_kind("$PBOPREFIX$", false, false, true), Entry::Prefix);
    assert_eq!(entry_kind("script.sqf", true, false, false), Entry::File);
    assert!(skipped_by_name("config.cpp", true));
    assert!(!skipped_by_name("config.cpp", false));
    assert!(!skipped_by_name("Config.cpp", true));
    assert!(skipped_by_name("addon.toml", false));
    assert!(is_prefix_file("$pboprefix$"));
    assert!(is_prefix_file("pboprefix.txt"));
    assert!(is_prefix_file("$pboprefix$.txt"));
    assert!(!is_prefix_file("$PBOPREFIX$"));
    assert!(!is_prefix_file("prefix"));
}

#[test]
fn files_are_named_by_their_place_in_the_addon() {
    assert_eq!(
        archive_name("/addons/main/functions/fnc_a.sqf", "addons/main"),
        "functions\\fnc_a.sqf"
    );
    assert_eq!(archive_name("/addons/main/config.cpp", "addons/main"), "config.cpp");
    assert_eq!(archive_name("/main//main/main/a/b", "main"), "main\\a\\b");
    assert_eq!(archive_name("/other/a.sqf", "main"), "\\other\\a.sqf");
    assert_eq!(archive_name("", "main"), "");
    assert_eq!(relative_path("/addons/main/data/a.paa", "addons/main"), "data/a.paa");
    assert_eq!(relative_path("/addons/main/addons/main/a", "addons/main"), "addons/main/a");
    assert_eq!(relative_path("/x/x/x/a", "x"), "x/x/a");
    assert_eq!(relative_path("/x//x//x/a", "x"), "a");
    assert!(holds_prefix("$PBOPREFIX$"));
    assert!(holds_prefix("$pboprefix$"));
    assert!(holds_prefix("PboPrefix.txt"));
    assert!(holds_prefix("$PBOPREFIX$.TXT"));
    assert!(!holds_prefix("prefix.txt"));
}

#[test]
fn only_files_that_can_be_rapified_are_selected() {
    let none = compile_patterns(&vec![]).unwrap();
    assert!(selects(true, "/addons/main/config.cpp", &none));
    assert!(!selects(false, "/addons/main/config.cpp", &none));
    assert!(!selects(true, "/addons/main/script.sqf", &none));
    let excludes = compile_patterns(&strings(&["/addons/*/data/*.rvmat"])).unwrap();
    assert!(!selects(true, "/addons/main/data/metal.rvmat", &excludes));
    assert!(selects(true, "/addons/main/data/deep/metal.rvmat", &excludes));
    assert!(selects(true, "/addons/main/config.cpp", &excludes));
    assert!(!selects(true, "/addons/main/cpp", &none));
    assert!(!warns_of_cpp("/addons/main/cpp"));
}

#[test]
fn files_are_sorted_by_name_and_patterns() {
    let project = strings(&["*.psd"]);
    let addon = strings(&["data/*.tga", "[broken"]);
    let sort = |filename: &str, has_config_bin: bool, path: &str| {
        sort_entry(filename, has_config_bin, path, "addons/main", &project, &addon)
    };
    assert_eq!(sort("config.cpp", true, "/addons/main/config.cpp"), Ok(Entry::Skip));
    assert_eq!(sort("addon.toml", false, "/addons/main/addon.toml"), Ok(Entry::Skip));
    assert_eq!(sort("a.psd", false, "/addons/main/a.psd"), Ok(Entry::Skip));
    assert_eq!(sort("a.tga", false, "/addons/main/data/a.tga"), Ok(Entry::Skip));
    assert!(matches!(
        sort("a.paa", false, "/addons/main/data/a.paa"),
        Err(Error::GlobPattern(_, _))
    ));
    let none = vec![];
    let plain = |filename: &str, path: &str| {
        sort_entry(filename, false, path, "addons/main", &project, &none)
    };
    assert_eq!(plain("a.paa", "/addons/main/data/a.paa"), Ok(Entry::File));
    assert_eq!(plain("config.cpp", "/addons/main/config.cpp"), Ok(Entry::File));
    assert_eq!(plain("$PBOPREFIX$", "/addons/main/$PBOPREFIX$"), Ok(Entry::Prefix));
    assert_eq!(plain("$PBOPREFIX$.psd", "/addons/main/$PBOPREFIX$.psd"), Ok(Entry::Skip));
}

#[test]
fn patterns_exclude_files() {
    let patterns = strings(&["*.psd", "/addons/main/data/**/*.tga"]);
    assert_eq!(excluded("/addons/main/a.psd", &patterns), Ok(true));
    assert_eq!(excluded("/addons/main/data/x/y/a.tga", &patterns), Ok(true));
    assert_eq!(excluded("/addons/main/a.paa", &patterns), Ok(false));
    assert_eq!(excluded("/addons/main/a.psd", &vec![]), Ok(false));
    let plain = strings(&["a?", "]", "a-b!", "{x}", "x.psd"]);
    assert_eq!(excluded("/addons/main/a.psd", &plain), Ok(false));
    assert_eq!(excluded("x.psd", &plain), Ok(true));
    assert_eq!(compile_patterns(&plain).map(|compiled| compiled.len()), Ok(5));
    let broken = strings(&["*.paa", "a**b", "*.psd"]);
    assert_eq!(excluded("x.paa", &broken), Ok(true));
    assert!(matches!(excluded("x.psd", &broken), Err(Error::GlobPattern(_, _))));
    assert!(matches!(
        excluded("x", &strings(&["[a"])),
        Err(Error::GlobPattern(0, reason)) if reason == "invalid range pattern"
    ));
}

#[test]
fn compiled_patterns_match_with_or_without_folders() {
    let compiled = compile_patterns(&strings(&["/addons/*.cpp"])).unwrap();
    assert_eq!(compiled.len(), 1);
    assert!(matches_any(&compiled, "/addons/config.cpp", Matching::Anywhere));
    assert!(matches_any(&compiled, "/addons/config.cpp", Matching::WithinFolders));
    assert!(matches_any(&compiled, "/addons/main/config.cpp", Matching::Anywhere));
    assert!(!matches_any(&compiled, "/addons/main/config.cpp", Matching::WithinFolders));
    assert!(!matches_any(&compiled, "/addons/config.hpp", Matching::Anywhere));
    assert!(!matches_any(&vec![], "anything", Matching::Anywhere));
    assert!(matches!(
        compile_patterns(&strings(&["fine", "***"])),
        Err(Error::GlobPattern(2, _))
    ));
    assert_eq!(compile_patterns(&vec![]).map(|compiled| compiled.len()), Ok(0));
}

#[test]
fn configs_are_rapified_by_extension() {
    assert!(can_rapify("/addons/main/config.cpp"));
    assert!(can_rapify("/addons/main/data/metal.rvmat"));
    assert!(can_rapify("mission/description.ext"));
    assert!(!can_rapify("/addons/main/script_component.hpp"));
    assert!(!can_rapify("/addons/main/cpp"));
    assert!(!can_rapify("/addons/main/config.CPP"));
    assert!(!can_rapify(""));
    assert!(!can_rapify("cpp"));
    assert!(!can_rapify("/addons/main/rvmat"));
    assert!(!can_rapify("/addons.cpp/main"));
    assert!(rapifies("cpp") && rapifies("rvmat") && rapifies("ext"));
    assert!(!rapifies("hpp") && !rapifies("") && !rapifies("Cpp"));
    assert!(warns_of_cpp("/addons/main/other.cpp"));
    assert!(!warns_of_cpp("/addons/main/config.cpp"));
    assert!(!warns_of_cpp("/addons/main/other.hpp"));
    assert!(is_stray_cpp("cpp", "other.cpp"));
    assert!(!is_stray_cpp("cpp", "config.cpp"));
    assert!(!is_stray_cpp("rvmat", "other.rvmat"));
    assert_eq!(Rapifier.name(), "Rapifier");
}

#[test]
fn rapified_configs_go_beside_or_over_the_file() {
    assert_eq!(output("config.cpp", "cpp"), Output::Binary { addon_config: true });
    assert_eq!(output("other.cpp", "cpp"), Output::Binary { addon_config: false });
    assert_eq!(output("other.CPP", "CPP"), Output::Binary { addon_config: false });
    assert_eq!(output("other.Cpp", "cPp"), Output::Binary { addon_config: false });
    assert_eq!(output("metal.rvmat", "rvmat"), Output::InPlace);
    assert_eq!(output("config.cpp", "hpp"), Output::InPlace);
    assert_eq!(output("config", ""), Output::InPlace);
}

#[test]
fn work_on_a_config_goes_step_by_step() {
    assert_eq!(rapify(Progress::Start, Event::Begin), (Progress::Start, Action::Preprocess));
    assert_eq!(
        rapify(Progress::Start, Event::Preprocess(Preprocess::Processed)),
        (Progress::Preprocessed, Action::Parse)
    );
    assert_eq!(
        rapify(Progress::Start, Event::Preprocess(Preprocess::Code)),
        (Progress::Done, Action::Report)
    );
    assert_eq!(
        rapify(Progress::Start, Event::Preprocess(Preprocess::Failed)),
        (Progress::Done, Action::Fail)
    );
    assert_eq!(
        rapify(Progress::Preprocessed, Event::Parse { parsed: true, errors: 0 }),
        (Progress::Parsed, Action::Place)
    );
    assert_eq!(
        rapify(Progress::Preprocessed, Event::Parse { parsed: true, errors: 2 }),
        (Progress::Done, Action::Report)
    );
    assert_eq!(
        rapify(Progress::Preprocessed, Event::Parse { parsed: false, errors: 0 }),
        (Progress::Done, Action::Report)
    );
    assert_eq!(
        rapify(Progress::Parsed, Event::Place { no_rapify: true }),
        (Progress::Done, Action::Finish)
    );
    assert_eq!(
        rapify(Progress::Parsed, Event::Place { no_rapify: false }),
        (Progress::Placed, Action::Create)
    );
    assert_eq!(
        rapify(Progress::Placed, Event::Create { created: true }),
        (Progress::Placed, Action::Write)
    );
    assert_eq!(
        rapify(Progress::Placed, Event::Create { created: false }),
        (Progress::Done, Action::Fail)
    );
    assert_eq!(
        rapify(Progress::Placed, Event::Write { written: true }),
        (Progress::Done, Action::Finish)
    );
    assert_eq!(
        rapify(Progress::Placed, Event::Write { written: false }),
        (Progress::Done, Action::Fail)
    );
    assert_eq!(rapify(Progress::Done, Event::Begin), (Progress::Done, Action::Finish));
    assert_eq!(
        rapify(Progress::Parsed, Event::Write { written: true }),
        (Progress::Done, Action::Finish)
    );
}

#[test]
fn check_runs_every_check_and_writes_nothing() {
    let plan = execute(&Command);
    assert_eq!(
        plan,
        Executor {
            name: "check".to_string(),
            preserve: PreservePrevious::Remove,
            print_info: true,
            collapse: Collapse::Yes,
            modules: vec![
                ModuleKind::Global,
                ModuleKind::Rapifier,
                ModuleKind::Binarize { check_only: true },
            ],
            init: true,
            check: true,
            build: Some(false),
        }
    );
    let fresh = Executor::new("dev".to_string(), PreservePrevious::Keep, false);
    assert_eq!(fresh.collapse, Collapse::No);
    assert!(fresh.modules.is_empty());
    assert!(!fresh.init && !fresh.check && fresh.build.is_none());
}

fn output_of_macro() -> Processed {
    let mapping = |start: usize, end: usize, was_macro: bool| Mapping {
        processed_start: start,
        processed_end: end,
        path: "config.cpp".to_string(),
        line: 1,
        was_macro,
    };
    Processed {
        sources: strings(&["config.cpp"]),
        mappings: vec![mapping(0, 7, false), mapping(7, 12, true), mapping(12, 30, false)],
        output: "data = 1.0.0; x = 'a'; é = true;".to_string(),
    }
}

#[test]
fn invalid_values_are_found_once() {
    let processed = output_of_macro();
    assert_eq!(run(None, Some(&(0..4))), vec![]);
    assert_eq!(run(Some(&processed), None), vec![]);
    assert_eq!(
        run(Some(&processed), Some(&(18..21))),
        vec![Finding::Value(CodeC01InvalidValue { span: 18..21, value: "'a'".to_string() })]
    );
    assert_eq!(
        run(Some(&processed), Some(&(7..12))),
        vec![Finding::Macro(CodeC01InvalidValueMacro { span: 7..12, output: "1.0.0".to_string() })]
    );
    assert_eq!(run(Some(&processed), Some(&(18..200))), vec![]);
    assert_eq!(run(Some(&processed), Some(&(24..23))), vec![]);
    assert_eq!(run(Some(&processed), Some(&(24..30))), vec![]);
    assert!(is_from_macro(&processed, 7));
    assert!(is_from_macro(&processed, 11));
    assert!(!is_from_macro(&processed, 12));
    assert!(!is_from_macro(&processed, 500));
    let value = |start: usize, end: usize| {
        CodeC01InvalidValue::new(start..end, &processed).map(|code| code.value)
    };
    assert_eq!(value(23, 25), Some("é".to_string()));
    assert_eq!(value(23, 24), None);
    assert_eq!(value(0, 4), Some("data".to_string()));
    assert_eq!(value(33, 33), Some(String::new()));
    assert_eq!(value(33, 34), None);
    assert_eq!(processed.as_str(), "data = 1.0.0; x = 'a'; é = true;");
}

#[test]
fn invalid_values_say_what_to_do() {
    let code = |value: &str| CodeC01InvalidValue { span: 0..1, value: value.to_string() };
    let quotes_or_number = Some("use quotes `\"`, or 0 for false and 1 for true".to_string());
    let double_quotes = Some("quotes need to be `\"` instead of `'`".to_string());
    let quotes = Some("use quotes `\"` around the value".to_string());
    assert_eq!(code("true").help(), quotes_or_number);
    assert_eq!(code("false").help(), quotes_or_number);
    assert_eq!(code("'abc'").help(), double_quotes);
    assert_eq!(code("''").help(), double_quotes);
    assert_eq!(code("'").help(), double_quotes);
    assert_eq!(code("'é'").help(), double_quotes);
    assert_eq!(code("'abc").help(), quotes);
    assert_eq!(code("abc'").help(), quotes);
    assert_eq!(code("").help(), quotes);
    assert_eq!(code("True").help(), quotes);
    assert_eq!(code("1.0.0").help(), quotes);
    assert_eq!(code("x").ident(), "L-C01");
    assert_eq!(code("x").link(), Some("/analysis/config.html#invalid_value"));
    assert_eq!(code("x").message(), "property's value could not be parsed");
    assert_eq!(code("x").label_message(), "invalid value");
}

#[test]
fn invalid_macro_results_show_the_output() {
    let processed = output_of_macro();
    let code = CodeC01InvalidValueMacro::new(7..12, &processed).unwrap();
    assert_eq!(code.notes(), vec!["The processed output was:\n1.0.0 ".to_string()]);
    assert_eq!(code.ident(), "L-C01M");
    assert_eq!(code.link(), Some("/analysis/config.html#invalid_value"));
    assert_eq!(code.message(), "macro's result could not be parsed");
    assert_eq!(code.label_message(), "invalid macro result");
    assert_eq!(
        code.help(),
        Some("perhaps this macro has a `Q_` variant or you need `QUOTE(..)`".to_string())
    );
    assert_eq!(CodeC01InvalidValueMacro::new(7..120, &processed), None);
    assert_eq!(CodeC01InvalidValue::new(7..120, &processed), None);
    let lint = LintC01InvalidValue;
    assert_eq!(lint.ident(), "invalid_value");
    assert_eq!(lint.sort(), 10);
    assert_eq!(lint.default_config(), Severity::Error);
    assert_eq!(
        lint.description(),
        "Reports on any values in the config that could not be parsed into a valid config value."
    );
}
