use obj_viewer::resources::Resources;

#[test]
fn file_names_resolve_under_the_static_prefix() {
    let res = Resources::from_file_name("cube.obj");
    assert_eq!(res.path(), "static/cube.obj");
    let res = Resources::from_file_name("");
    assert_eq!(res.path(), "static/");
}

#[test]
fn full_paths_are_kept_as_given() {
    let res = Resources::from_path("/static/cube.mtl");
    assert_eq!(res.path(), "/static/cube.mtl");
}
