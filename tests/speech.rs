use outfit_picker::gear::Outfit;
use outfit_picker::speech::{join_english_list, outfit_to_speech};

#[test]
fn test_join() {
    assert_eq!("", join_english_list(&[]));
    assert_eq!("apples", join_english_list(&["apples"]));
    assert_eq!(
        "apples and oranges",
        join_english_list(&["apples", "oranges"])
    );
    assert_eq!(
        "apples, oranges, and pears",
        join_english_list(&["apples", "oranges", "pears"])
    );
}

#[test]
fn join_four_items() {
    assert_eq!("a, b, c, and d", join_english_list(&["a", "b", "c", "d"]));
}

fn outfit(
    head: Vec<&'static str>,
    torso: Vec<&'static str>,
    legs: Vec<&'static str>,
    accessories: Vec<&'static str>,
) -> Outfit {
    Outfit { head, torso, legs, feet: vec!["running shoes"], accessories }
}

#[test]
fn speech_with_every_sentence() {
    let o = outfit(
        vec!["a winter cap"],
        vec!["a heavy jacket", "a long-sleeved shirt"],
        vec!["tights"],
        vec!["gloves"],
    );
    assert_eq!(
        "You should wear a heavy jacket, a long-sleeved shirt, and tights. \
         On your head, you should wear a winter cap. Don't forget gloves!",
        outfit_to_speech(&o)
    );
}

#[test]
fn speech_without_head_or_accessories() {
    let o = outfit(vec![], vec!["a short-sleeved shirt"], vec!["shorts"], vec![]);
    assert_eq!("You should wear a short-sleeved shirt and shorts.", outfit_to_speech(&o));
}

#[test]
fn speech_with_only_accessories() {
    let o = outfit(vec![], vec![], vec![], vec!["sunglasses", "sunblock"]);
    assert_eq!("Don't forget sunglasses and sunblock!", outfit_to_speech(&o));
}

#[test]
fn speech_of_empty_outfit_is_empty() {
    let o = outfit(vec![], vec![], vec![], vec![]);
    assert_eq!("", outfit_to_speech(&o));
}

#[test]
fn describe_lists_nonempty_regions() {
    let o = outfit(vec![], vec!["a vest", "a long-sleeved shirt"], vec!["tights"], vec![]);
    assert_eq!("a vest, a long-sleeved shirt\ntights\nrunning shoes\n", o.describe());
}
