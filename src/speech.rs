use crate::gear::{Outfit, OutfitView};
use vstd::prelude::*;

verus! {

/// The characters of each string.
pub open spec fn views(items: Seq<&str>) -> Seq<Seq<char>> {
    items.map_values(|s: &str| s@)
}

/// `items` with `sep` between neighbours.
pub open spec fn joined(items: Seq<Seq<char>>, sep: Seq<char>) -> Seq<char>
    decreases items.len(),
{
    if items.len() == 0 {
        seq![]
    } else if items.len() == 1 {
        items[0]
    } else {
        joined(items.drop_last(), sep) + sep + items.last()
    }
}

/// `items` as English prose: "a", "a and b", "a, b, and c".
pub open spec fn english_list(items: Seq<Seq<char>>) -> Seq<char> {
    if items.len() == 0 {
        seq![]
    } else if items.len() == 1 {
        items[0]
    } else if items.len() == 2 {
        items[0] + " and "@ + items[1]
    } else {
        joined(items.drop_last(), ", "@) + ", and "@ + items.last()
    }
}

/// The first `end` items of `items`, with `sep` between neighbours.
fn join_prefix(items: &[&str], end: usize, sep: &str) -> (r: String)
    requires
        end <= items@.len(),
    ensures
        r@ == joined(views(items@.take(end as int)), sep@),
{
    if end == 0 {
        assert(views(items@.take(0)) =~= seq![]);
        return String::new();
    }
    let mut out = String::from_str(items[0]);
    assert(views(items@.take(1)) =~= seq![items@[0]@]);
    let mut i: usize = 1;
    while i < end
        invariant
            1 <= i <= end <= items@.len(),
            out@ == joined(views(items@.take(i as int)), sep@),
        decreases end - i,
    {
        out.append(sep);
        out.append(items[i]);
        assert(views(items@.take(i + 1)).drop_last() =~= views(items@.take(i as int)));
        assert(views(items@.take(i + 1)).last() == items@[i as int]@);
        i = i + 1;
    }
    out
}

/// Flattens a list of strings into one, with commas as needed and "and"
/// before the last item.
pub fn join_english_list(items: &[&str]) -> (r: String)
    ensures
        r@ == english_list(views(items@)),
{
    let len = items.len();
    if len == 0 {
        String::new()
    } else if len == 1 {
        String::from_str(items[0])
    } else if len == 2 {
        let mut out = String::from_str(items[0]);
        out.append(" and ");
        out.append(items[1]);
        out
    } else {
        let mut out = join_prefix(items, len - 1, ", ");
        out.append(", and ");
        out.append(items[len - 1]);
        assert(views(items@.take(len - 1)) =~= views(items@).drop_last());
        out
    }
}

/// `sentence` after what was said so far, a space between them.
pub open spec fn then_say(said: Seq<char>, sentence: Seq<char>) -> Seq<char> {
    if said.len() == 0 {
        sentence
    } else {
        said + " "@ + sentence
    }
}

/// What to say of an outfit: one sentence for clothing, one for the head
/// and one for accessories, each only where there is something to say.
pub open spec fn speech_of(outfit: OutfitView) -> Seq<char> {
    let clothing = outfit.torso + outfit.legs;
    let s1 = if clothing.len() > 0 {
        "You should wear "@ + english_list(views(clothing)) + "."@
    } else {
        seq![]
    };
    let s2 = if outfit.head.len() > 0 {
        then_say(s1, "On your head, you should wear "@ + english_list(views(outfit.head)) + "."@)
    } else {
        s1
    };
    if outfit.accessories.len() > 0 {
        then_say(s2, "Don't forget "@ + english_list(views(outfit.accessories)) + "!"@)
    } else {
        s2
    }
}

/// `first` followed by `second`.
fn concat_names(first: &Vec<&'static str>, second: &Vec<&'static str>) -> (r: Vec<&'static str>)
    ensures
        r@ == first@ + second@,
{
    let mut out: Vec<&'static str> = Vec::new();
    let mut i: usize = 0;
    while i < first.len()
        invariant
            i <= first@.len(),
            out@ == first@.take(i as int),
        decreases first@.len() - i,
    {
        out.push(first[i]);
        assert(first@.take(i + 1) =~= first@.take(i as int).push(first@[i as int]));
        i = i + 1;
    }
    let mut j: usize = 0;
    assert(first@.take(first@.len() as int) =~= first@);
    while j < second.len()
        invariant
            j <= second@.len(),
            out@ == first@ + second@.take(j as int),
        decreases second@.len() - j,
    {
        out.push(second[j]);
        assert(first@ + second@.take(j + 1) =~= (first@ + second@.take(j as int)).push(
            second@[j as int],
        ));
        j = j + 1;
    }
    assert(second@.take(second@.len() as int) =~= second@);
    out
}

/// Appends `sentence` to `speech`, a space before it unless `speech` is
/// empty.
fn say(speech: &mut String, sentence: &String)
    ensures
        final(speech)@ == then_say(old(speech)@, sentence@),
{
    if !speech.as_str().is_empty() {
        speech.append(" ");
    }
    speech.append(sentence.as_str());
}

/// The spoken recommendation for an outfit.
pub fn outfit_to_speech(outfit: &Outfit) -> (r: String)
    ensures
        r@ == speech_of(outfit@),
{
    let mut speech = String::new();
    if outfit.torso.len() > 0 || outfit.legs.len() > 0 {
        let clothing = concat_names(&outfit.torso, &outfit.legs);
        let mut sentence = String::from_str("You should wear ");
        let list = join_english_list(clothing.as_slice());
        sentence.append(list.as_str());
        sentence.append(".");
        say(&mut speech, &sentence);
    }
    if outfit.head.len() > 0 {
        let mut sentence = String::from_str("On your head, you should wear ");
        let list = join_english_list(outfit.head.as_slice());
        sentence.append(list.as_str());
        sentence.append(".");
        say(&mut speech, &sentence);
    }
    if outfit.accessories.len() > 0 {
        let mut sentence = String::from_str("Don't forget ");
        let list = join_english_list(outfit.accessories.as_slice());
        sentence.append(list.as_str());
        sentence.append("!");
        say(&mut speech, &sentence);
    }
    speech
}

/// One line for each region that holds something: its names with ", "
/// between them.
pub open spec fn line_of(names: Seq<&str>) -> Seq<char> {
    if names.len() == 0 {
        seq![]
    } else {
        joined(views(names), ", "@) + "\n"@
    }
}

pub open spec fn description_of(outfit: OutfitView) -> Seq<char> {
    line_of(outfit.head) + line_of(outfit.torso) + line_of(outfit.legs) + line_of(outfit.feet)
        + line_of(outfit.accessories)
}

/// Appends the line for one region.
fn add_line(out: &mut String, names: &Vec<&'static str>)
    ensures
        final(out)@ == old(out)@ + line_of(names@),
{
    if names.len() > 0 {
        let line = join_prefix(names.as_slice(), names.len(), ", ");
        assert(names@.take(names@.len() as int) =~= names@);
        out.append(line.as_str());
        out.append("\n");
    }
}

impl Outfit {
    /// The outfit as text, one line per region that holds something.
    pub fn describe(&self) -> (r: String)
        ensures
            r@ == description_of(self@),
    {
        let mut out = String::new();
        add_line(&mut out, &self.head);
        add_line(&mut out, &self.torso);
        add_line(&mut out, &self.legs);
        add_line(&mut out, &self.feet);
        add_line(&mut out, &self.accessories);
        out
    }
}

} // verus!
