use minirobot::tests::test_case::{
    call_function, call_target, module_file_path, suite_dir_path, suite_hook_path, Hook, Launch,
    TestCase,
};
use minirobot::tests::test_module::{
    discover_test_cases, run_cases, scan_line, ModulePhase, RunPlan, TestModule,
};
use minirobot::common::ds::Result;
use minirobot::tests::summary::{summarize, verdict_of, Summary};
use minirobot::tests::test_order::TestOrder;
use minirobot::tests::test_suite::{is_module_file, TestSuite};
use minirobot::tests::tree::{entry_name, Entry, TestTree};
use std::cell::RefCell;

fn file(path: &str, content: &str) -> Entry {
    Entry { path: path.to_string(), is_file: true, content: Some(content.to_string()) }
}

const A: &str = "use x;\n\nfn setup() {}\n  fn test_1() {\n}\n\tfn test_2(arg: u8) {}\nfn helper_test_3() {}\n// fn test_4()\nfn test_broken\nfn teardown() {}\n";

const B: &str = "fn test_1() {}\n";

fn tree() -> TestTree {
    TestTree::new(vec![
        file("tests/net/b_test.rs", B),
        file("tests/net/module_test.rs", "fn test_hook() {}\n"),
        file("tests/net/notes.txt", "fn test_note() {}\n"),
        file("tests/net/a_test.rs", A),
        file("tests/net/deep/c_test.rs", "fn test_9() {}\n"),
        file("tests/global_test.rs", ""),
        Entry { path: "tests/net/d_test.rs".to_string(), is_file: false, content: None },
        file("tests/empty/readme.md", ""),
        file("tests/hollow/z_test.rs", "fn main() {}\n"),
    ])
}

fn names(cases: &Vec<TestCase>) -> Vec<String> {
    cases
        .iter()
        .map(|c| format!("{}:{}:{}", c.get_suite(), c.get_module(), c.get_name()))
        .collect()
}

fn words(v: &[&str]) -> Vec<String> {
    v.iter().map(|s| s.to_string()).collect()
}

#[test]
fn paths_follow_the_convention() {
    assert_eq!(suite_dir_path("net"), "tests/net");
    assert_eq!(suite_hook_path("net"), "tests/net/module_test.rs");
    assert_eq!(module_file_path("net", "a"), "tests/net/a_test.rs");
    assert_eq!(call_target("tests/net/a_test.rs", "test_1"), "tests/net/a_test::test_1");
    assert_eq!(call_target("tests/x.rs/a.rs", "setup"), "tests/x/a::setup");
}

#[test]
fn a_call_comes_to_what_the_tool_reports() {
    assert_eq!(call_function("f.rs", "g", Launch::Ran { success: true }), Ok(()));
    assert_eq!(
        call_function("f.rs", "g", Launch::Ran { success: false }),
        Err("Function g in file f.rs failed".to_string())
    );
    assert_eq!(
        call_function("f.rs", "g", Launch::NotStarted { message: "no cargo".to_string() }),
        Err("no cargo".to_string())
    );
}

#[test]
fn names_are_scanned_from_declarations() {
    let name = |line: &str| -> Option<String> {
        scan_line(&line.chars().collect()).map(|n| n.iter().collect())
    };
    assert_eq!(name("fn test_login() {"), Some("login".to_string()));
    assert_eq!(name("   fn test_a_b(x: u8, y: (u8, u8)) {"), Some("a_b".to_string()));
    assert_eq!(name("fn test_() {}"), Some("".to_string()));
    assert_eq!(name("fn test_x (y)"), Some("x ".to_string()));
    assert_eq!(name("pub fn test_x()"), None);
    assert_eq!(name("fn testx()"), None);
    assert_eq!(name("fn test_x"), None);
    assert_eq!(name("// fn test_x()"), None);
    assert_eq!(name(""), None);
}

#[test]
fn entries_are_named_by_their_directory() {
    let name = |path: &str, dir: &str| -> Option<String> {
        entry_name(&path.chars().collect(), &dir.chars().collect()).map(|n| n.iter().collect())
    };
    assert_eq!(name("tests/net/a_test.rs", "tests/net"), Some("a_test.rs".to_string()));
    assert_eq!(name("tests/net/deep/a_test.rs", "tests/net"), None);
    assert_eq!(name("tests/net/", "tests/net"), None);
    assert_eq!(name("tests/net", "tests/net"), None);
    assert_eq!(name("tests/network/a_test.rs", "tests/net"), None);
    assert!(is_module_file(&"a_test.rs".chars().collect()));
    assert!(is_module_file(&"_test.rs".chars().collect()));
    assert!(!is_module_file(&"module_test.rs".chars().collect()));
    assert!(!is_module_file(&"a_test.rs.bak".chars().collect()));
}

#[test]
fn the_tree_answers_for_what_it_lists() {
    let tree = tree();
    assert!(tree.has("tests/net/a_test.rs"));
    assert!(tree.has("tests/net/d_test.rs"));
    assert!(!tree.has("tests/net/e_test.rs"));
    assert_eq!(tree.read("tests/net/b_test.rs"), Some(&B.to_string()));
    assert_eq!(tree.read("tests/net/d_test.rs"), None);
    assert_eq!(tree.read("tests/net/e_test.rs"), None);
    let listed: Vec<String> = tree.list("tests/net").iter().map(|n| n.iter().collect()).collect();
    assert_eq!(listed, words(&["b_test.rs", "module_test.rs", "notes.txt", "a_test.rs"]));
    assert_eq!(tree.entries().len(), 9);
}

#[test]
fn a_case_needs_its_file() {
    let tree = tree();
    let case = TestCase::new("1", "a", "net", &tree).unwrap();
    assert_eq!(case.get_name(), "1");
    assert_eq!(case.get_module(), "a");
    assert_eq!(case.get_suite(), "net");
    assert!(TestCase::new("1", "e", "net", &tree).is_none());
    assert!(TestCase::new("1", "a", "nat", &tree).is_none());
    assert!(case.same_as(&case.duplicate()));
    assert!(!case.same_as(&TestCase::new("1", "b", "net", &tree).unwrap()));
}

#[test]
fn cases_are_discovered_in_the_order_of_their_lines() {
    let tree = tree();
    assert_eq!(names(&discover_test_cases("a", "net", &tree)), words(&["net:a:1", "net:a:2"]));
    assert_eq!(names(&discover_test_cases("b", "net", &tree)), words(&["net:b:1"]));
    assert!(discover_test_cases("d", "net", &tree).is_empty());
    assert!(discover_test_cases("e", "net", &tree).is_empty());
}

#[test]
fn discovery_is_repeatable() {
    let first = TestSuite::new("net", None, None, &tree(), 4).unwrap();
    let second = TestSuite::new("net", None, None, &tree(), 4).unwrap();
    assert_eq!(names(first.test_cases()), names(second.test_cases()));
    assert_eq!(first.modules(), second.modules());
    let mut entries = tree().entries().clone();
    entries.reverse();
    let reversed = TestSuite::new("net", None, None, &TestTree::new(entries), 4).unwrap();
    assert_eq!(names(first.test_cases()), names(reversed.test_cases()));
    assert_eq!(first.modules(), reversed.modules());
}

#[test]
fn a_suite_holds_its_modules_in_order() {
    let suite = TestSuite::new("net", None, None, &tree(), 4).unwrap();
    assert_eq!(suite.get_name(), "net");
    assert_eq!(suite.modules(), &words(&["a", "b"]));
    assert_eq!(names(suite.test_cases()), words(&["net:a:1", "net:a:2", "net:b:1"]));
}

#[test]
fn a_suite_needs_a_module_and_a_case() {
    let tree = tree();
    assert!(TestSuite::new("empty", None, None, &tree, 4).is_none());
    assert!(TestSuite::new("hollow", None, None, &tree, 4).is_none());
    assert!(TestSuite::new("missing", None, None, &tree, 4).is_none());
    assert!(TestSuite::new("net", None, None, &TestTree::new(Vec::new()), 4).is_none());
}

#[test]
fn a_repeated_suffix_names_the_same_module() {
    let tree = TestTree::new(vec![
        file("tests/s/a_test.rs", "fn test_x() {}\n"),
        file("tests/s/a_test.rs_test.rs", "fn test_y() {}\n"),
    ]);
    let suite = TestSuite::new("s", None, None, &tree, 1).unwrap();
    assert_eq!(suite.modules(), &words(&["a", "a"]));
    assert_eq!(names(suite.test_cases()), words(&["s:a:x", "s:a:x"]));
}

#[test]
fn a_sequential_run_keeps_the_order_of_discovery() {
    let suite = TestSuite::new("net", Some(3), None, &tree(), 4).unwrap();
    let plan = suite.plan_filtered(&Vec::new(), &Vec::new());
    assert_eq!(plan.order, TestOrder::Sequential);
    assert_eq!(plan.parallel, 3);
    assert_eq!(names(&plan.cases), words(&["net:a:1", "net:a:2", "net:b:1"]));
}

#[test]
fn a_module_filter_leaves_the_other_modules_out() {
    let suite = TestSuite::new("net", None, None, &tree(), 4).unwrap();
    let plan = suite.plan_filtered(&words(&["a"]), &Vec::new());
    assert_eq!(names(&plan.cases), words(&["net:a:1", "net:a:2"]));
    let plan = suite.plan_filtered(&words(&["b", "a", "zz"]), &Vec::new());
    assert_eq!(names(&plan.cases), words(&["net:a:1", "net:a:2", "net:b:1"]));
    let plan = suite.plan_filtered(&words(&["zz"]), &Vec::new());
    assert!(plan.cases.is_empty());
}

#[test]
fn a_case_filter_goes_by_the_bare_name() {
    let suite = TestSuite::new("net", None, None, &tree(), 4).unwrap();
    let plan = suite.plan_filtered(&Vec::new(), &words(&["1"]));
    assert_eq!(names(&plan.cases), words(&["net:a:1", "net:b:1"]));
    let plan = suite.plan_filtered(&words(&["b"]), &words(&["1", "2"]));
    assert_eq!(names(&plan.cases), words(&["net:b:1"]));
    let plan = suite.plan_filtered(&words(&["b"]), &words(&["2"]));
    assert!(plan.cases.is_empty());
}

#[test]
fn a_parallel_run_takes_every_included_case_once() {
    let suite = TestSuite::new("net", None, Some(TestOrder::Parallel), &tree(), 8).unwrap();
    let plan = suite.plan_filtered(&Vec::new(), &Vec::new());
    assert_eq!(plan.order, TestOrder::Parallel);
    assert_eq!(plan.parallel, 8);
    assert_eq!(names(&plan.cases), words(&["net:a:1", "net:a:2", "net:b:1"]));
    let plan = suite.plan_filtered(&words(&["a"]), &words(&["1"]));
    assert_eq!(names(&plan.cases), words(&["net:a:1", "net:b:1"]));
}

#[test]
fn a_module_holds_its_cases() {
    let tree = tree();
    let module = TestModule::new("a", "net", None, None, &tree, 6).unwrap();
    assert_eq!(module.get_name(), "a");
    assert_eq!(module.get_suite(), "net");
    assert_eq!(names(module.test_cases()), words(&["net:a:1", "net:a:2"]));
    let plan = module.plan();
    assert_eq!(plan.order, TestOrder::Sequential);
    assert_eq!(plan.parallel, 6);
    assert_eq!(names(&plan.cases), words(&["net:a:1", "net:a:2"]));
    let module = TestModule::new("d", "net", Some(2), Some(TestOrder::Parallel), &tree, 6).unwrap();
    assert!(module.test_cases().is_empty());
    assert_eq!(module.plan().parallel, 2);
    assert_eq!(module.plan().order, TestOrder::Parallel);
    assert!(TestModule::new("e", "net", None, None, &tree, 6).is_none());
    let call = module.phase_call(ModulePhase::ModuleTeardown).unwrap();
    assert_eq!(call.file_path, "tests/net/module_test.rs");
    assert_eq!(call.function_name, "teardown");
    let call = module.phase_call(ModulePhase::GlobalSetup).unwrap();
    assert_eq!(call.file_path, "tests/global_test.rs");
    assert_eq!(call.function_name, "setup");
    assert!(module.phase_call(ModulePhase::Cases).is_none());
}

#[test]
fn the_steps_of_a_module_follow_each_other() {
    assert_eq!(ModulePhase::first(), ModulePhase::GlobalSetup);
    assert_eq!(ModulePhase::GlobalSetup.next(true), Some(ModulePhase::ModuleSetup));
    assert_eq!(ModulePhase::GlobalSetup.next(false), None);
    assert_eq!(ModulePhase::ModuleSetup.next(true), Some(ModulePhase::Cases));
    assert_eq!(ModulePhase::ModuleSetup.next(false), Some(ModulePhase::GlobalTeardown));
    assert_eq!(ModulePhase::Cases.next(false), Some(ModulePhase::ModuleTeardown));
    assert_eq!(ModulePhase::ModuleTeardown.next(false), Some(ModulePhase::GlobalTeardown));
    assert_eq!(ModulePhase::GlobalTeardown.next(true), None);
}

#[test]
fn the_hooks_of_a_case_follow_each_other() {
    assert_eq!(Hook::first(), Hook::GlobalSetup);
    assert_eq!(Hook::GlobalSetup.next(true), Some(Hook::ModuleSetup));
    assert_eq!(Hook::ModuleSetup.next(true), Some(Hook::CaseSetup));
    assert_eq!(Hook::CaseSetup.next(true), Some(Hook::Body));
    assert_eq!(Hook::Body.next(true), Some(Hook::CaseTeardown));
    assert_eq!(Hook::Body.next(false), Some(Hook::CaseTeardown));
    assert_eq!(Hook::CaseTeardown.next(false), Some(Hook::ModuleTeardown));
    assert_eq!(Hook::ModuleTeardown.next(false), Some(Hook::GlobalTeardown));
    assert_eq!(Hook::GlobalTeardown.next(true), None);
    assert_eq!(Hook::GlobalSetup.next(false), None);
    assert_eq!(Hook::ModuleSetup.next(false), Some(Hook::GlobalTeardown));
    assert_eq!(Hook::CaseSetup.next(false), Some(Hook::ModuleTeardown));
    assert_eq!(Hook::CaseSetup.label(), "Error in test case setup");
    assert_eq!(Hook::Body.label(), "Error in test case");
}

fn record<'a>(
    targets: &'a RefCell<Vec<String>>,
    failing: &'static str,
) -> impl Fn(String) -> Launch + 'a {
    move |target: String| {
        let success = target != failing;
        targets.borrow_mut().push(target);
        Launch::Ran { success }
    }
}

#[test]
fn a_case_runs_its_seven_hooks() {
    let tree = tree();
    let case = TestCase::new("2", "a", "net", &tree).unwrap();
    let targets = RefCell::new(Vec::new());
    let reports = case.run(&record(&targets, ""));
    assert_eq!(
        *targets.borrow(),
        words(&[
            "tests/global_test::setup",
            "tests/net/module_test::setup",
            "tests/net/a_test::setup",
            "tests/net/a_test::test_2",
            "tests/net/a_test::teardown",
            "tests/net/module_test::teardown",
            "tests/global_test::teardown",
        ])
    );
    let hooks: Vec<Hook> = reports.iter().map(|r| r.hook).collect();
    assert_eq!(
        hooks,
        vec![
            Hook::GlobalSetup,
            Hook::ModuleSetup,
            Hook::CaseSetup,
            Hook::Body,
            Hook::CaseTeardown,
            Hook::ModuleTeardown,
            Hook::GlobalTeardown,
        ]
    );
    assert!(reports.iter().all(|r| r.outcome.is_ok()));
}

#[test]
fn a_failing_body_keeps_no_teardown_from_running() {
    let tree = tree();
    let case = TestCase::new("2", "a", "net", &tree).unwrap();
    let targets = RefCell::new(Vec::new());
    let reports = case.run(&record(&targets, "tests/net/a_test::test_2"));
    assert_eq!(reports.len(), 7);
    assert_eq!(
        reports[3].outcome,
        Err("Function test_2 in file tests/net/a_test.rs failed".to_string())
    );
    assert!(reports[4].outcome.is_ok() && reports[6].outcome.is_ok());
}

#[test]
fn a_failing_setup_leaves_the_body_out_and_tears_down_what_was_entered() {
    let tree = tree();
    let case = TestCase::new("2", "a", "net", &tree).unwrap();
    let targets = RefCell::new(Vec::new());
    let reports = case.run(&record(&targets, "tests/net/module_test::setup"));
    assert_eq!(
        *targets.borrow(),
        words(&[
            "tests/global_test::setup",
            "tests/net/module_test::setup",
            "tests/global_test::teardown",
        ])
    );
    let hooks: Vec<Hook> = reports.iter().map(|r| r.hook).collect();
    assert_eq!(hooks, vec![Hook::GlobalSetup, Hook::ModuleSetup, Hook::GlobalTeardown]);
    assert!(reports[1].outcome.is_err());
    assert!(reports[2].outcome.is_ok());

    let targets = RefCell::new(Vec::new());
    let reports = case.run(&record(&targets, "tests/net/a_test::setup"));
    assert_eq!(
        *targets.borrow(),
        words(&[
            "tests/global_test::setup",
            "tests/net/module_test::setup",
            "tests/net/a_test::setup",
            "tests/net/module_test::teardown",
            "tests/global_test::teardown",
        ])
    );
    let hooks: Vec<Hook> = reports.iter().map(|r| r.hook).collect();
    assert_eq!(
        hooks,
        vec![
            Hook::GlobalSetup,
            Hook::ModuleSetup,
            Hook::CaseSetup,
            Hook::ModuleTeardown,
            Hook::GlobalTeardown,
        ]
    );

    let stopped = case.run(&|_target: String| Launch::NotStarted { message: "x".to_string() });
    assert_eq!(stopped.len(), 1);
    assert_eq!(stopped[0].hook, Hook::GlobalSetup);
    assert_eq!(stopped[0].outcome, Err("x".to_string()));
}

#[test]
fn a_failing_teardown_keeps_no_other_teardown_from_running() {
    let tree = tree();
    let case = TestCase::new("2", "a", "net", &tree).unwrap();
    let targets = RefCell::new(Vec::new());
    let reports = case.run(&record(&targets, "tests/net/a_test::teardown"));
    assert_eq!(reports.len(), 7);
    assert!(reports[4].outcome.is_err());
    assert!(reports[5].outcome.is_ok() && reports[6].outcome.is_ok());
}

#[test]
fn cases_run_one_after_the_other() {
    let suite = TestSuite::new("net", None, None, &tree(), 4).unwrap();
    let plan = suite.plan_filtered(&Vec::new(), &Vec::new());
    let targets = RefCell::new(Vec::new());
    let reports = run_cases(&plan.cases, &record(&targets, "tests/net/a_test::setup"));
    assert_eq!(reports.len(), 3);
    assert_eq!(reports[0].len(), 5);
    assert_eq!(reports[1].len(), 5);
    assert_eq!(reports[2].len(), 7);
    let bodies: Vec<String> =
        targets.borrow().iter().filter(|t| t.contains("::test_")).cloned().collect();
    assert_eq!(bodies, words(&["tests/net/b_test::test_1"]));
    assert_eq!(targets.borrow().len(), 17);
}

fn targets_of_bodies(targets: &RefCell<Vec<String>>) -> Vec<String> {
    targets.borrow().iter().filter(|t| t.contains("::test_")).cloned().collect()
}

#[test]
fn a_sequential_suite_runs_its_plan_itself() {
    let suite = TestSuite::new("net", None, None, &tree(), 4).unwrap();
    let targets = RefCell::new(Vec::new());
    let handed = RefCell::new(0);
    let pool = |_plan: RunPlan| {
        *handed.borrow_mut() += 1;
        Vec::new()
    };
    let reports = suite.run_filtered(&words(&["a"]), &Vec::new(), &record(&targets, ""), &pool);
    assert_eq!(reports.len(), 2);
    assert!(reports.iter().all(|r| r.len() == 7));
    assert_eq!(
        targets_of_bodies(&targets),
        words(&["tests/net/a_test::test_1", "tests/net/a_test::test_2"])
    );
    assert_eq!(*handed.borrow(), 0);
}

#[test]
fn a_parallel_suite_hands_its_plan_to_the_pool() {
    let suite = TestSuite::new("net", Some(2), Some(TestOrder::Parallel), &tree(), 4).unwrap();
    let targets = RefCell::new(Vec::new());
    let handed: RefCell<Vec<String>> = RefCell::new(Vec::new());
    let pool = |plan: RunPlan| {
        assert_eq!(plan.order, TestOrder::Parallel);
        assert_eq!(plan.parallel, 2);
        handed.borrow_mut().extend(names(&plan.cases));
        plan.cases.iter().map(|c| c.run(&|_t: String| Launch::Ran { success: true })).collect()
    };
    let reports = suite.run_filtered(&Vec::new(), &words(&["1"]), &record(&targets, ""), &pool);
    assert_eq!(*handed.borrow(), words(&["net:a:1", "net:b:1"]));
    assert_eq!(reports.len(), 2);
    assert!(targets.borrow().is_empty());
}

#[test]
fn a_module_is_set_up_once_and_torn_down_once() {
    let tree = tree();
    let module = TestModule::new("a", "net", None, None, &tree, 6).unwrap();
    let targets = RefCell::new(Vec::new());
    let pool = |_plan: RunPlan| Vec::new();
    let report = module.run(&record(&targets, ""), &pool);
    assert!(report.global_setup.is_ok());
    assert_eq!(report.module_setup, Some(Ok(())));
    assert_eq!(report.module_teardown, Some(Ok(())));
    assert_eq!(report.global_teardown, Some(Ok(())));
    assert_eq!(report.cases.map(|c| c.len()), Some(2));
    let seen = targets.borrow();
    assert_eq!(seen.len(), 2 + 14 + 2);
    assert_eq!(seen[0], "tests/global_test::setup");
    assert_eq!(seen[1], "tests/net/module_test::setup");
    assert_eq!(seen[16], "tests/net/module_test::teardown");
    assert_eq!(seen[17], "tests/global_test::teardown");
}

#[test]
fn a_module_whose_setup_fails_runs_nothing_more() {
    let tree = tree();
    let module = TestModule::new("a", "net", None, None, &tree, 6).unwrap();
    let pool = |_plan: RunPlan| Vec::new();
    let targets = RefCell::new(Vec::new());
    let report = module.run(&record(&targets, "tests/global_test::setup"), &pool);
    assert_eq!(
        report.global_setup,
        Err("Function setup in file tests/global_test.rs failed".to_string())
    );
    assert!(report.module_setup.is_none() && report.cases.is_none());
    assert!(report.module_teardown.is_none() && report.global_teardown.is_none());
    assert_eq!(targets.borrow().len(), 1);
    let count = RefCell::new(0usize);
    let second_fails = |_t: String| {
        *count.borrow_mut() += 1;
        Launch::Ran { success: *count.borrow() != 2 }
    };
    let report = module.run(&second_fails, &pool);
    assert!(report.global_setup.is_ok());
    assert!(report.module_setup.is_some_and(|r| r.is_err()));
    assert!(report.cases.is_none() && report.module_teardown.is_none());
    assert_eq!(report.global_teardown, Some(Ok(())));
    assert_eq!(*count.borrow(), 3);
}

#[test]
fn a_parallel_module_hands_its_cases_to_the_pool() {
    let tree = tree();
    let module = TestModule::new("a", "net", Some(3), Some(TestOrder::Parallel), &tree, 6).unwrap();
    let targets = RefCell::new(Vec::new());
    let handed: RefCell<Vec<String>> = RefCell::new(Vec::new());
    let pool = |plan: RunPlan| {
        assert_eq!(plan.parallel, 3);
        handed.borrow_mut().extend(names(&plan.cases));
        Vec::new()
    };
    let report = module.run(&record(&targets, ""), &pool);
    assert_eq!(*handed.borrow(), words(&["net:a:1", "net:a:2"]));
    assert_eq!(report.cases.map(|c| c.len()), Some(0));
    assert_eq!(targets.borrow().len(), 4);
}

#[test]
fn a_run_is_summed_up() {
    let tree = tree();
    let case = TestCase::new("2", "a", "net", &tree).unwrap();
    let targets = RefCell::new(Vec::new());
    let passed = case.run(&record(&targets, ""));
    let failed = case.run(&record(&targets, "tests/net/a_test::test_2"));
    let setup = case.run(&record(&targets, "tests/net/a_test::setup"));
    let teardown = case.run(&record(&targets, "tests/global_test::teardown"));
    assert_eq!(verdict_of(&passed), Result::Success);
    assert_eq!(verdict_of(&failed), Result::Failed);
    assert_eq!(verdict_of(&setup), Result::Error);
    assert_eq!(verdict_of(&teardown), Result::Error);
    assert_eq!(verdict_of(&Vec::new()), Result::Success);
    let runs = vec![passed, failed, setup, teardown, case.run(&record(&targets, ""))];
    assert_eq!(summarize(&runs), Summary { passed: 2, failed: 1, errored: 2 });
    assert_eq!(summarize(&Vec::new()), Summary { passed: 0, failed: 0, errored: 0 });
    let suite = TestSuite::new("net", None, None, &tree, 4).unwrap();
    let pool = |_plan: RunPlan| Vec::new();
    let reports =
        suite.run_filtered(&Vec::new(), &Vec::new(), &record(&targets, "tests/net/b_test::test_1"), &pool);
    assert_eq!(summarize(&reports), Summary { passed: 2, failed: 1, errored: 0 });
}
