use aiko::builder::{Pipeline, Stage};

#[test]
fn test_pipeline_builder_compiles() {
    let _pipeline = Pipeline::new("test")
        .source_stage(Stage::<(), i32>::new("test_source", "()", "i32"))
        .then_stage(Stage::<i32, i32>::new("double", "i32", "i32"))
        .then_stage(Stage::<i32, String>::new("to_string", "i32", "String"))
        .sink_stage(Stage::<String, ()>::new("test_sink", "String", "()"));
}

#[test]
fn test_input_pipeline_builder() {
    let pipeline = Pipeline::new("test")
        .input::<i32>()
        .then_stage(Stage::<i32, i32>::new("double", "i32", "i32"))
        .then_stage(Stage::<i32, String>::new("to_string", "i32", "String"))
        .sink_stage(Stage::<String, ()>::new("test_sink", "String", "()"));

    assert_eq!(pipeline.name(), "test");
    assert_eq!(pipeline.element_names(), vec!["double", "to_string", "test_sink"]);
}

#[test]
fn type_flow_lists_each_stage_in_order() {
    let pipeline = Pipeline::new("flow")
        .input::<u8>()
        .then_stage(Stage::<u8, u16>::new("widen", "u8", "u16"))
        .sink_stage(Stage::<u16, ()>::new("store", "u16", "()"));
    assert_eq!(pipeline.type_flow(), vec![("u8", "u16"), ("u16", "()")]);
}

#[test]
fn open_and_sourced_pipelines_keep_names() {
    let open = Pipeline::new("open").input::<u8>().then_stage(Stage::<u8, u8>::new("id", "u8", "u8")).build();
    assert_eq!(open.name(), "open");
    assert_eq!(open.element_names(), vec!["id"]);

    let sourced = Pipeline::new("src")
        .source_stage(Stage::<(), u8>::new("gen", "()", "u8"))
        .sink_stage(Stage::<u8, ()>::new("drop", "u8", "()"));
    assert_eq!(sourced.name(), "src");
    assert_eq!(sourced.element_names(), vec!["gen", "drop"]);

    let sourced_open = Pipeline::new("src2").source_stage(Stage::<(), u8>::new("gen", "()", "u8")).build();
    assert_eq!(sourced_open.element_names(), vec!["gen"]);
}

#[test]
fn builders_report_the_last_output_type() {
    let input = Pipeline::new("flow").input::<u8>();
    assert_eq!(input.last_output_type(), None);
    let input = input.then_stage(Stage::<u8, u16>::new("widen", "u8", "u16"));
    assert_eq!(input.last_output_type(), Some("u16"));
    let sourced = Pipeline::new("src").source_stage(Stage::<(), u8>::new("gen", "()", "u8"));
    assert_eq!(sourced.last_output_type(), Some("u8"));
    let sourced = sourced.then_stage(Stage::<u8, String>::new("show", "u8", "String"));
    assert_eq!(sourced.last_output_type(), Some("String"));
}
