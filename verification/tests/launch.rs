use sidecar_supervisor::launch::launch_plan_for;
use sidecar_supervisor::launch::plan_launch;
use sidecar_supervisor::launch::READINESS_DELAY_SECS;
use sidecar_supervisor::LaunchPlan;

#[test]
fn readiness_delay_is_two_seconds() {
    assert_eq!(READINESS_DELAY_SECS, 2);
}

#[test]
fn plan_for_the_default_port() {
    let plan = launch_plan_for(8000);
    assert_eq!(
        plan,
        LaunchPlan {
            program: String::from("python-backend"),
            arguments: vec![String::from("--port"), String::from("8000")],
            port: 8000,
        }
    );
}

#[test]
fn plan_names_the_port_in_decimal() {
    assert_eq!(launch_plan_for(15000).arguments, vec!["--port", "15000"]);
    assert_eq!(launch_plan_for(65535).arguments, vec!["--port", "65535"]);
    assert_eq!(launch_plan_for(1024).arguments, vec!["--port", "1024"]);
    assert_eq!(launch_plan_for(0).arguments, vec!["--port", "0"]);
}

#[test]
fn planned_launch_uses_the_port_it_picked() {
    let plan = plan_launch();
    assert!(plan.port >= 1024);
    assert_eq!(plan.program, "python-backend");
    assert_eq!(plan.arguments, vec![String::from("--port"), plan.port.to_string()]);
    assert_eq!(plan, launch_plan_for(plan.port));
}
