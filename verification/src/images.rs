//! What an image analysis takes from its user: which files count as
//! images and in what order they are listed, which of them is chosen, and
//! what is asked about it.

use crate::decimal::{parse_count, parsed_count};
use crate::error::InvalidInput;
use crate::text::{chars_of, line_texts, same_chars};
use vstd::prelude::*;
use vstd::seq_lib::{to_multiset_build, to_multiset_insert};
use vstd::string::StringExecFns;

verus! {

/// `c` with an ASCII capital letter turned into its small letter.
pub open spec fn ascii_lower_char(c: char) -> char {
    if 'A' <= c <= 'Z' {
        ((c as u8 + 32) as u8) as char
    } else {
        c
    }
}

/// `s` with its ASCII capital letters turned into small letters.
pub open spec fn ascii_lower(s: Seq<char>) -> Seq<char> {
    s.map_values(|c: char| ascii_lower_char(c))
}

/// The last dot of `name` stands at position `dot`.
pub open spec fn is_last_dot(name: Seq<char>, dot: int) -> bool {
    &&& 0 <= dot < name.len()
    &&& name[dot] == '.'
    &&& forall|j: int| dot < j < name.len() ==> name[j] != '.'
}

/// The file name `name` has the extension `ext`, ASCII case aside: `ext` is
/// what follows the last dot, and that dot is not the first character.
pub open spec fn has_extension(name: Seq<char>, ext: Seq<char>) -> bool {
    exists|dot: int|
        0 < dot && #[trigger] is_last_dot(name, dot) && ascii_lower(
            name.subrange(dot + 1, name.len() as int),
        ) == ext
}

/// The file name of an image in a format that the vision models take.
pub open spec fn is_image_name(name: Seq<char>) -> bool {
    ||| has_extension(name, "jpg"@)
    ||| has_extension(name, "jpeg"@)
    ||| has_extension(name, "png"@)
    ||| has_extension(name, "gif"@)
    ||| has_extension(name, "bmp"@)
    ||| has_extension(name, "webp"@)
}

/// `c` with an ASCII capital letter turned into its small letter.
fn to_ascii_lower(c: char) -> (lower: char)
    ensures
        lower == ascii_lower_char(c),
{
    if 'A' <= c && c <= 'Z' {
        ((c as u8) + 32) as char
    } else {
        c
    }
}

/// Whether `name` is the file name of an image in a supported format.
pub fn is_supported_image(name: &str) -> (supported: bool)
    ensures
        supported == is_image_name(name@),
{
    let chars = chars_of(name);
    let mut dot: usize = chars.len();
    while dot > 0 && chars[dot - 1] != '.'
        invariant
            dot <= chars@.len(),
            forall|j: int| dot <= j < chars@.len() ==> chars@[j] != '.',
        decreases dot,
    {
        dot -= 1;
    }
    if dot <= 1 {
        // No dot at all, or none but the first character.
        assert forall|ext: Seq<char>| !has_extension(chars@, ext) by {
            assert forall|d: int| 0 < d implies !is_last_dot(chars@, d) by {}
        }
        return false;
    }
    let at: usize = dot - 1;
    assert(is_last_dot(chars@, at as int));
    let mut lowered: Vec<char> = Vec::new();
    let mut i: usize = dot;
    while i < chars.len()
        invariant
            dot <= i <= chars@.len(),
            lowered@.len() == i - dot,
            forall|j: int| 0 <= j < lowered@.len() ==> lowered@[j] == ascii_lower_char(
                chars@[dot + j],
            ),
        decreases chars@.len() - i,
    {
        lowered.push(to_ascii_lower(chars[i]));
        i += 1;
    }
    assert(lowered@ =~= ascii_lower(chars@.subrange(at + 1, chars@.len() as int)));
    assert forall|ext: Seq<char>| has_extension(chars@, ext) == (lowered@ == ext) by {
        if has_extension(chars@, ext) {
            let d = choose|d: int|
                0 < d && #[trigger] is_last_dot(chars@, d) && ascii_lower(
                    chars@.subrange(d + 1, chars@.len() as int),
                ) == ext;
            assert(d == at);
        }
    }
    same_chars(&lowered, &chars_of("jpg")) || same_chars(&lowered, &chars_of("jpeg"))
        || same_chars(&lowered, &chars_of("png")) || same_chars(&lowered, &chars_of("gif"))
        || same_chars(&lowered, &chars_of("bmp")) || same_chars(&lowered, &chars_of("webp"))
}

/// The item that the count `selection` picks among `available` items,
/// counted from one. Zero picks the first item as one does.
pub open spec fn selected_index(selection: usize, available: usize) -> Result<
    usize,
    InvalidInput,
> {
    let index = if selection == 0 {
        0usize
    } else {
        (selection - 1) as usize
    };
    if index < available {
        Ok(index)
    } else {
        Err(InvalidInput::SelectionOutOfRange { selection, available })
    }
}

/// The item that the text `entered` picks among `available` items.
pub open spec fn selection_of(entered: Seq<char>, available: usize) -> Result<
    usize,
    InvalidInput,
> {
    match parsed_count(entered) {
        None => Err(InvalidInput::SelectionNotACount),
        Some(selection) => selected_index(selection, available),
    }
}

/// Reads which of `available` images the user chose, and gives its index.
pub fn select_image(entered: &str, available: usize) -> (chosen: Result<usize, InvalidInput>)
    ensures
        chosen == selection_of(entered@, available),
{
    match parse_count(entered) {
        None => Err(InvalidInput::SelectionNotACount),
        Some(selection) => {
            let index: usize = if selection == 0 {
                0
            } else {
                selection - 1
            };
            if index < available {
                Ok(index)
            } else {
                Err(InvalidInput::SelectionOutOfRange { selection, available })
            }
        },
    }
}

/// What is asked about an image when the user asks nothing of their own.
pub open spec fn default_image_prompt() -> Seq<char> {
    "Describe this image in detail."@
}

/// The prompt of an image analysis: the user's own, or the default one when
/// they gave none.
pub fn image_prompt(custom: &str) -> (prompt: String)
    ensures
        prompt@ == if custom@.len() == 0 {
            default_image_prompt()
        } else {
            custom@
        },
{
    if custom.is_empty() {
        String::from_str("Describe this image in detail.")
    } else {
        String::from_str(custom)
    }
}

/// `a` comes before `b`, or is `b`, in the order of a dictionary whose
/// letters are ordered by code point.
pub open spec fn text_le(a: Seq<char>, b: Seq<char>) -> bool
    decreases a.len(),
{
    if a.len() == 0 {
        true
    } else if b.len() == 0 {
        false
    } else if a.first() != b.first() {
        a.first() < b.first()
    } else {
        text_le(a.drop_first(), b.drop_first())
    }
}

/// Every text comes before itself, or is itself.
pub proof fn lemma_text_le_reflexive(a: Seq<char>)
    ensures
        text_le(a, a),
    decreases a.len(),
{
    if a.len() > 0 {
        lemma_text_le_reflexive(a.drop_first());
    }
}

/// Of two texts one comes before the other, or they are the same.
pub proof fn lemma_text_le_total(a: Seq<char>, b: Seq<char>)
    ensures
        text_le(a, b) || text_le(b, a),
    decreases a.len(),
{
    if a.len() > 0 && b.len() > 0 && a.first() == b.first() {
        lemma_text_le_total(a.drop_first(), b.drop_first());
    }
}

/// What comes before a text comes before all that the text comes before.
pub proof fn lemma_text_le_transitive(a: Seq<char>, b: Seq<char>, c: Seq<char>)
    requires
        text_le(a, b),
        text_le(b, c),
    ensures
        text_le(a, c),
    decreases a.len(),
{
    if a.len() > 0 && b.len() > 0 && c.len() > 0 && a.first() == b.first() && b.first()
        == c.first() {
        lemma_text_le_transitive(a.drop_first(), b.drop_first(), c.drop_first());
    }
}

/// Two texts that come before each other are the same text.
pub proof fn lemma_text_le_antisymmetric(a: Seq<char>, b: Seq<char>)
    requires
        text_le(a, b),
        text_le(b, a),
    ensures
        a == b,
    decreases a.len(),
{
    if a.len() > 0 && b.len() > 0 {
        lemma_text_le_antisymmetric(a.drop_first(), b.drop_first());
        assert(a =~= seq![a.first()] + a.drop_first());
        assert(b =~= seq![b.first()] + b.drop_first());
    } else {
        assert(a =~= b);
    }
}

/// The texts of `names` stand in order.
pub open spec fn in_order(names: Seq<Seq<char>>) -> bool {
    forall|i: int, j: int| 0 <= i <= j < names.len() ==> text_le(names[i], names[j])
}

/// Those of `names` that are file names of images, in the order given.
pub open spec fn images_among(names: Seq<Seq<char>>) -> Seq<Seq<char>>
    decreases names.len(),
{
    if names.len() == 0 {
        Seq::empty()
    } else if is_image_name(names.last()) {
        images_among(names.drop_last()).push(names.last())
    } else {
        images_among(names.drop_last())
    }
}

/// Whether `a` comes before `b` or is `b`.
fn comes_first(a: &str, b: &str) -> (first: bool)
    ensures
        first == text_le(a@, b@),
{
    let x = chars_of(a);
    let y = chars_of(b);
    let mut i: usize = 0;
    assert(x@.skip(0) =~= x@ && y@.skip(0) =~= y@);
    loop
        invariant
            x@ == a@,
            y@ == b@,
            i <= x@.len(),
            i <= y@.len(),
            text_le(a@, b@) == text_le(x@.skip(i as int), y@.skip(i as int)),
        decreases x@.len() - i,
    {
        if i == x.len() {
            return true;
        }
        if i == y.len() {
            return false;
        }
        if x[i] != y[i] {
            return x[i] < y[i];
        }
        proof {
            assert(x@.skip(i as int).drop_first() =~= x@.skip(i + 1));
            assert(y@.skip(i as int).drop_first() =~= y@.skip(i + 1));
        }
        i += 1;
    }
}

/// The file names of images among `names`, in order: what a listing of the
/// images directory shows.
pub fn image_names(names: &Vec<String>) -> (images: Vec<String>)
    ensures
        in_order(line_texts(images@)),
        line_texts(images@).to_multiset() == images_among(line_texts(names@)).to_multiset(),
{
    let mut images: Vec<String> = Vec::new();
    assert(line_texts(images@) =~= Seq::empty());
    assert(line_texts(names@).take(0) =~= Seq::empty());
    let mut n: usize = 0;
    while n < names.len()
        invariant
            n <= names@.len(),
            in_order(line_texts(images@)),
            line_texts(images@).to_multiset() == images_among(
                line_texts(names@).take(n as int),
            ).to_multiset(),
        decreases names@.len() - n,
    {
        let ghost before = line_texts(names@).take(n as int);
        let ghost upto = line_texts(names@).take(n + 1);
        let ghost name = names@[n as int]@;
        assert(upto.drop_last() =~= before);
        assert(upto.last() == name);
        if is_supported_image(names[n].as_str()) {
            let ghost sorted = line_texts(images@);
            let mut at: usize = 0;
            loop
                invariant_except_break
                    at <= images@.len(),
                invariant
                    n < names@.len(),
                    name == names@[n as int]@,
                    sorted == line_texts(images@),
                    in_order(sorted),
                    forall|k: int| 0 <= k < at ==> text_le(sorted[k], name),
                ensures
                    at <= images@.len(),
                    at < images@.len() ==> !text_le(sorted[at as int], name),
                decreases images@.len() - at,
            {
                if at == images.len() {
                    break;
                }
                if !comes_first(images[at].as_str(), names[n].as_str()) {
                    break;
                }
                at += 1;
            }
            images.insert(at, names[n].clone());
            proof {
                let grown = line_texts(images@);
                assert(grown =~= sorted.insert(at as int, name));
                to_multiset_insert(sorted, at as int, name);
                to_multiset_build(images_among(before), name);
                assert forall|i: int, j: int| 0 <= i <= j < grown.len() implies text_le(
                    grown[i],
                    grown[j],
                ) by {
                    if j == at {
                        if i < at {
                            assert(text_le(sorted[i], name));
                        } else {
                            lemma_text_le_reflexive(name);
                        }
                    } else if i == at {
                        // `name` comes before the text that stopped the search,
                        // and that text before all that follow it.
                        assert(!text_le(sorted[at as int], name));
                        lemma_text_le_total(sorted[at as int], name);
                        assert(text_le(sorted[at as int], sorted[j - 1]));
                        lemma_text_le_transitive(name, sorted[at as int], sorted[j - 1]);
                    } else {
                        let i0 = if i < at {
                            i
                        } else {
                            i - 1
                        };
                        let j0 = if j < at {
                            j
                        } else {
                            j - 1
                        };
                        assert(text_le(sorted[i0], sorted[j0]));
                    }
                }
            }
        }
        n += 1;
    }
    assert(line_texts(names@).take(n as int) =~= line_texts(names@));
    images
}

} // verus!
