use render_core::systems::{create_render_schedule_builder, PassId, ScheduleBuilder, Stage};

#[test]
fn renderer_schedule_declares_three_stages_and_runs_the_skybox() {
    let builder = create_render_schedule_builder();
    assert_eq!(
        builder.stages(),
        &vec![
            Stage { pass: PassId::Skybox, enabled: true },
            Stage { pass: PassId::Line, enabled: false },
            Stage { pass: PassId::Mesh, enabled: false },
        ]
    );
    let schedule = builder.build();
    assert_eq!(schedule.passes(), &vec![PassId::Skybox]);
}

#[test]
fn empty_builder_builds_empty_schedule() {
    assert!(ScheduleBuilder::new().build().passes().is_empty());
}

#[test]
fn schedule_keeps_the_declared_order_of_enabled_stages() {
    let schedule = ScheduleBuilder::new()
        .add_system(PassId::Mesh)
        .add_disabled(PassId::Line)
        .add_system(PassId::Skybox)
        .add_system(PassId::Line)
        .build();
    assert_eq!(schedule.passes(), &vec![PassId::Mesh, PassId::Skybox, PassId::Line]);
}

#[test]
fn schedule_of_disabled_stages_is_empty() {
    let schedule =
        ScheduleBuilder::new().add_disabled(PassId::Skybox).add_disabled(PassId::Mesh).build();
    assert!(schedule.passes().is_empty());
}
