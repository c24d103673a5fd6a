use steamworksjs::update::{
    clone_strings, update_steps, ItemAttributes, UgcUpdate, UpdateStep, Visibility,
};

fn nothing() -> UgcUpdate {
    UgcUpdate {
        title: None,
        description: None,
        change_note: None,
        preview_path: None,
        content_path: None,
        tags: None,
    }
}

fn baseline() -> ItemAttributes {
    ItemAttributes {
        title: String::from("A"),
        description: String::from("B"),
        preview_path: String::from("preview.png"),
        content_path: String::from("content"),
        tags: vec![String::from("x")],
        visibility: Visibility::Private,
    }
}

#[test]
fn an_update_of_the_description_alone() {
    let update = UgcUpdate { description: Some(String::from("C")), ..nothing() };
    let (steps, change_note) = update_steps(update);
    assert_eq!(
        steps,
        vec![
            UpdateStep::Description(String::from("C")),
            UpdateStep::Visibility(Visibility::Public),
        ]
    );
    assert_eq!(change_note, None);

    let mut item = baseline();
    item.apply_all(&steps);
    assert_eq!(item.title, "A");
    assert_eq!(item.tags, vec![String::from("x")]);
    assert_eq!(item.description, "C");
    assert_eq!(item.preview_path, "preview.png");
    assert_eq!(item.content_path, "content");
    assert_eq!(item.visibility, Visibility::Public);
}

#[test]
fn an_empty_update_still_makes_the_item_public() {
    let (steps, change_note) = update_steps(nothing());
    assert_eq!(steps, vec![UpdateStep::Visibility(Visibility::Public)]);
    assert_eq!(change_note, None);
    let mut item = baseline();
    item.apply_all(&steps);
    assert_eq!(item, ItemAttributes { visibility: Visibility::Public, ..baseline() });
}

#[test]
fn a_full_update_takes_its_steps_in_order() {
    let update = UgcUpdate {
        title: Some(String::from("t")),
        description: Some(String::from("d")),
        change_note: Some(String::from("n")),
        preview_path: Some(String::from("p")),
        content_path: Some(String::from("c")),
        tags: Some(vec![String::from("one"), String::from("two")]),
    };
    let (steps, change_note) = update_steps(update);
    assert_eq!(
        steps,
        vec![
            UpdateStep::Title(String::from("t")),
            UpdateStep::Description(String::from("d")),
            UpdateStep::PreviewPath(String::from("p")),
            UpdateStep::Tags(vec![String::from("one"), String::from("two")]),
            UpdateStep::ContentPath(String::from("c")),
            UpdateStep::Visibility(Visibility::Public),
        ]
    );
    assert_eq!(change_note, Some(String::from("n")));
    let mut item = baseline();
    item.apply_all(&steps);
    assert_eq!(
        item,
        ItemAttributes {
            title: String::from("t"),
            description: String::from("d"),
            preview_path: String::from("p"),
            content_path: String::from("c"),
            tags: vec![String::from("one"), String::from("two")],
            visibility: Visibility::Public,
        }
    );
}

#[test]
fn the_change_note_is_no_step() {
    let update = UgcUpdate { change_note: Some(String::from("only a note")), ..nothing() };
    let (steps, change_note) = update_steps(update);
    assert_eq!(steps, vec![UpdateStep::Visibility(Visibility::Public)]);
    assert_eq!(change_note, Some(String::from("only a note")));
}

#[test]
fn an_empty_list_of_tags_is_a_step_of_its_own() {
    let update = UgcUpdate { tags: Some(Vec::new()), ..nothing() };
    let (steps, _) = update_steps(update);
    assert_eq!(
        steps,
        vec![UpdateStep::Tags(Vec::new()), UpdateStep::Visibility(Visibility::Public)]
    );
    let mut item = baseline();
    item.apply_all(&steps);
    assert!(item.tags.is_empty());
    assert_eq!(item.title, "A");
}

#[test]
fn steps_on_different_attributes_can_be_taken_in_either_order() {
    let title = UpdateStep::Title(String::from("new title"));
    let tags = UpdateStep::Tags(vec![String::from("y"), String::from("z")]);
    let mut one = baseline();
    one.apply(&title);
    one.apply(&tags);
    let mut other = baseline();
    other.apply(&tags);
    other.apply(&title);
    assert_eq!(one, other);
    assert_eq!(one.title, "new title");
    assert_eq!(one.description, "B");
}

#[test]
fn one_step_sets_one_attribute() {
    let mut item = baseline();
    item.apply(&UpdateStep::PreviewPath(String::from("other.png")));
    assert_eq!(item, ItemAttributes { preview_path: String::from("other.png"), ..baseline() });
    item.apply(&UpdateStep::ContentPath(String::from("dir")));
    item.apply(&UpdateStep::Visibility(Visibility::Unlisted));
    assert_eq!(
        item,
        ItemAttributes {
            preview_path: String::from("other.png"),
            content_path: String::from("dir"),
            visibility: Visibility::Unlisted,
            ..baseline()
        }
    );
}

#[test]
fn a_copied_list_of_strings_is_the_same_list() {
    let list = vec![String::from("a"), String::new(), String::from("b c")];
    assert_eq!(clone_strings(&list), list);
    assert_eq!(clone_strings(&Vec::new()), Vec::<String>::new());
}

#[test]
fn the_steps_of_an_update_can_be_taken_backwards() {
    let update = UgcUpdate {
        title: Some(String::from("t")),
        description: None,
        change_note: None,
        preview_path: Some(String::from("p")),
        content_path: None,
        tags: Some(vec![String::from("one")]),
    };
    let (steps, _) = update_steps(update);
    let mut forwards = baseline();
    forwards.apply_all(&steps);
    let mut backwards = baseline();
    for step in steps.iter().rev() {
        backwards.apply(step);
    }
    assert_eq!(forwards, backwards);
    assert_eq!(
        forwards,
        ItemAttributes {
            title: String::from("t"),
            preview_path: String::from("p"),
            tags: vec![String::from("one")],
            visibility: Visibility::Public,
            ..baseline()
        }
    );
}
