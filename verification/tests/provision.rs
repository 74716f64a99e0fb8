use camp_grader::provision::{advance_provision, begin_provision, git_command, GitStep, LearnArgs, Provision};

fn args(course: &str) -> LearnArgs {
    LearnArgs { course: course.to_string(), submodule: Some("https://example.org/r.git".to_string()) }
}

fn provision(configured: bool, add: bool, update: bool, master: bool, main: bool) -> (Vec<GitStep>, Provision) {
    let mut steps = Vec::new();
    let mut step = begin_provision(configured);
    loop {
        steps.push(step);
        let succeeded = match step {
            GitStep::Add => add,
            GitStep::Update => update,
            GitStep::CheckoutMaster => master,
            GitStep::CheckoutMain => main,
        };
        match advance_provision(step, succeeded) {
            Provision::Next(next) => step = next,
            end => return (steps, end),
        }
    }
}

#[test]
fn the_submodule_path_lies_below_the_exercises() {
    assert_eq!(args("rustlings").submodule_path(), "exercises/rustlings");
    assert_eq!(args("").submodule_path(), "exercises/");
}

#[test]
fn a_course_is_configured_where_the_submodule_file_names_its_path() {
    let file = "[submodule \"exercises/rustlings\"]\n\tpath = exercises/rustlings\n\turl = https://example.org/r.git\n";
    assert!(args("rustlings").is_configured(Some(file)));
    assert!(args("rust").is_configured(Some(file)));
    assert!(!args("learning-cxx").is_configured(Some(file)));
    assert!(!args("rustlings").is_configured(Some("")));
    assert!(!args("rustlings").is_configured(None));
}

#[test]
fn provisioning_begins_with_an_update_or_an_addition() {
    assert_eq!(begin_provision(true), GitStep::Update);
    assert_eq!(begin_provision(false), GitStep::Add);
}

#[test]
fn advance_provision_follows_the_table() {
    assert_eq!(advance_provision(GitStep::Add, true), Provision::Next(GitStep::Update));
    assert_eq!(advance_provision(GitStep::Add, false), Provision::Failed(GitStep::Add));
    assert_eq!(advance_provision(GitStep::Update, true), Provision::Next(GitStep::CheckoutMaster));
    assert_eq!(advance_provision(GitStep::Update, false), Provision::Failed(GitStep::Update));
    assert_eq!(advance_provision(GitStep::CheckoutMaster, true), Provision::Ready { detached: false });
    assert_eq!(advance_provision(GitStep::CheckoutMaster, false), Provision::Next(GitStep::CheckoutMain));
    assert_eq!(advance_provision(GitStep::CheckoutMain, true), Provision::Ready { detached: false });
    assert_eq!(advance_provision(GitStep::CheckoutMain, false), Provision::Ready { detached: true });
}

#[test]
fn a_new_course_is_added_updated_and_switched() {
    assert_eq!(
        provision(false, true, true, true, false),
        (vec![GitStep::Add, GitStep::Update, GitStep::CheckoutMaster], Provision::Ready { detached: false })
    );
    assert_eq!(
        provision(false, true, true, false, true),
        (
            vec![GitStep::Add, GitStep::Update, GitStep::CheckoutMaster, GitStep::CheckoutMain],
            Provision::Ready { detached: false }
        )
    );
    assert_eq!(
        provision(true, false, true, false, false),
        (
            vec![GitStep::Update, GitStep::CheckoutMaster, GitStep::CheckoutMain],
            Provision::Ready { detached: true }
        )
    );
}

#[test]
fn a_failed_addition_or_update_gives_up() {
    assert_eq!(provision(false, false, true, true, true), (vec![GitStep::Add], Provision::Failed(GitStep::Add)));
    assert_eq!(
        provision(false, true, false, true, true),
        (vec![GitStep::Add, GitStep::Update], Provision::Failed(GitStep::Update))
    );
    assert_eq!(provision(true, true, false, true, true), (vec![GitStep::Update], Provision::Failed(GitStep::Update)));
}

#[test]
fn git_command_lines() {
    let url = "https://example.org/r.git";
    let path = "exercises/rustlings";
    let add = git_command(GitStep::Add, url, path);
    assert_eq!(add.program, "git");
    assert_eq!(add.args, ["submodule", "add", url, path]);
    let update = git_command(GitStep::Update, url, path);
    assert_eq!(update.args, ["submodule", "update", "--init", "--remote", path]);
    let master = git_command(GitStep::CheckoutMaster, url, path);
    assert_eq!(master.args, ["checkout", "-B", "master", "origin/master"]);
    let main = git_command(GitStep::CheckoutMain, url, path);
    assert_eq!(main.args, ["checkout", "-B", "main", "origin/main"]);
}

#[test]
fn the_switches_run_in_the_course_directory() {
    assert!(!GitStep::Add.runs_in_course_dir());
    assert!(!GitStep::Update.runs_in_course_dir());
    assert!(GitStep::CheckoutMaster.runs_in_course_dir());
    assert!(GitStep::CheckoutMain.runs_in_course_dir());
}
