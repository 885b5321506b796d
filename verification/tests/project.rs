use thorium::commands::project::{create, Scaffold, ScaffoldFile};

#[test]
fn scaffold_of_a_project() {
    assert_eq!(
        create("my-app"),
        Scaffold {
            directories: vec!["my-app/src".to_string(), "my-app/build".to_string()],
            files: vec![
                ScaffoldFile {
                    path: "my-app/src/main.th".to_string(),
                    contents: "fn main() {\n\n  // The code starts running here. \n\n}\n"
                        .to_string(),
                },
                ScaffoldFile {
                    path: "my-app/Project.toml".to_string(),
                    contents:
                        "[project]\nname = \"my-app\"\n\n[compiler]\ntarget = \"\"\n\n[dependencies]\n"
                            .to_string(),
                },
            ],
        }
    );
}

#[test]
fn scaffold_embeds_the_name_as_it_is() {
    let scaffold = create("x");
    assert_eq!(scaffold.directories, vec!["x/src", "x/build"]);
    assert_eq!(scaffold.files[0].path, "x/src/main.th");
    assert_eq!(scaffold.files[1].path, "x/Project.toml");
    assert!(scaffold.files[1].contents.starts_with("[project]\nname = \"x\"\n"));
    assert!(scaffold.files[1].contents.ends_with("[dependencies]\n"));
}
