use prompt_bot::discord::{add_rendered, components_for, create_components};
use prompt_bot::keyboard::Keyboard;
use serenity::builder::CreateComponents;

fn button_json(label: &str, id: &str) -> String {
    format!("{{\"custom_id\":\"{}\",\"label\":\"{}\",\"style\":1,\"type\":2}}", id, label)
}

#[test]
fn components_for_yes_no_maybe() {
    let components = components_for("Yes,No:Maybe");
    assert_eq!(components.0.len(), 2);
    let first = components.0[0].to_string();
    let second = components.0[1].to_string();
    assert_eq!(
        first,
        format!(
            "{{\"components\":[{},{}],\"type\":1}}",
            button_json("Yes", "id_0_0"),
            button_json("No", "id_0_1")
        )
    );
    assert_eq!(
        second,
        format!("{{\"components\":[{}],\"type\":1}}", button_json("Maybe", "id_1_0"))
    );
}

#[test]
fn create_components_appends_to_what_is_there() {
    let mut components = CreateComponents::default();
    create_components(&mut components, "a");
    create_components(&mut components, "b,c");
    assert_eq!(components.0.len(), 2);
    assert_eq!(
        components.0[0].to_string(),
        format!("{{\"components\":[{}],\"type\":1}}", button_json("a", "id_0_0"))
    );
    assert_eq!(
        components.0[1].to_string(),
        format!(
            "{{\"components\":[{},{}],\"type\":1}}",
            button_json("b", "id_0_0"),
            button_json("c", "id_0_1")
        )
    );
}

#[test]
fn add_rendered_keeps_labels_and_ids_apart() {
    let tree = Keyboard::parse("left,right").render();
    let mut components = CreateComponents::default();
    add_rendered(&mut components, &tree);
    assert_eq!(components.0.len(), 1);
    let row = components.0[0].to_string();
    assert!(row.contains(&button_json("left", "id_0_0")));
    assert!(row.contains(&button_json("right", "id_0_1")));
    assert!(row.find("left").unwrap() < row.find("right").unwrap());
}
