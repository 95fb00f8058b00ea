//! Rendering of a theme as stylesheet text.

use vstd::prelude::*;
use vstd::string::*;

use crate::colors::ColorOverrides;
use crate::keys::{ColorKey, COLOR_KEY_COUNT};

verus! {

/// The last lines of every published stylesheet: they pull in the overrides
/// that the user keeps by hand.
pub const IMPORT_DIRECTIVE: &'static str = "\n@import url(\"custom.css\");\n";

/// Whether a stylesheet declares `key`: the theme gives it a color, and the
/// color is not blank.
pub open spec fn declares(colors: Map<ColorKey, Seq<char>>, key: ColorKey) -> bool {
    colors.contains_key(key) && colors[key].len() > 0
}

/// The line that binds a role to a color.
pub open spec fn declaration(key: ColorKey, color: Seq<char>) -> Seq<char> {
    "@define-color "@ + key.ident() + " "@ + color + ";\n"@
}

/// The declared roles among the first `upto` of canonical order, in that
/// order.
pub open spec fn declared_keys(colors: Map<ColorKey, Seq<char>>, upto: nat) -> Seq<ColorKey>
    decreases upto,
{
    if upto == 0 {
        Seq::empty()
    } else {
        let key = ColorKey::at(upto - 1);
        let before = declared_keys(colors, (upto - 1) as nat);
        if declares(colors, key) {
            before.push(key)
        } else {
            before
        }
    }
}

/// The declarations of `keys`, one after the other.
pub open spec fn declarations(colors: Map<ColorKey, Seq<char>>, keys: Seq<ColorKey>) -> Seq<char>
    decreases keys.len(),
{
    if keys.len() == 0 {
        Seq::empty()
    } else {
        declarations(colors, keys.drop_last()) + declaration(keys.last(), colors[keys.last()])
    }
}

/// The roles that a stylesheet of the theme declares, in the order of their
/// declarations.
pub open spec fn rendered_keys(colors: Map<ColorKey, Seq<char>>) -> Seq<ColorKey> {
    declared_keys(colors, COLOR_KEY_COUNT as nat)
}

/// The stylesheet text of a theme: one declaration for each declared role,
/// in canonical order, and nothing else.
pub open spec fn render(colors: Map<ColorKey, Seq<char>>) -> Seq<char> {
    declarations(colors, rendered_keys(colors))
}

/// What is published for a theme: its declarations, then the import
/// directive.
pub open spec fn published_text(colors: Map<ColorKey, Seq<char>>) -> Seq<char> {
    render(colors) + IMPORT_DIRECTIVE@
}

proof fn lemma_declared_keys(colors: Map<ColorKey, Seq<char>>, upto: nat)
    requires
        upto <= COLOR_KEY_COUNT,
    ensures
        forall|key: ColorKey| #[trigger]
            declared_keys(colors, upto).contains(key) <==> key.rank() < upto && declares(
                colors,
                key,
            ),
        forall|i: int, j: int|
            0 <= i < j < declared_keys(colors, upto).len() ==> (#[trigger] declared_keys(
                colors,
                upto,
            )[i]).rank() < (#[trigger] declared_keys(colors, upto)[j]).rank(),
    decreases upto,
{
    let keys = declared_keys(colors, upto);
    if upto > 0 {
        let last = ColorKey::at(upto - 1);
        let before = declared_keys(colors, (upto - 1) as nat);
        lemma_declared_keys(colors, (upto - 1) as nat);
        ColorKey::lemma_rank_at(last, upto - 1);
        assert forall|key: ColorKey| #[trigger]
            keys.contains(key) <==> key.rank() < upto && declares(colors, key) by {
            ColorKey::lemma_rank_at(key, 0);
            if declares(colors, last) {
                assert(keys == before.push(last));
                assert(keys.last() == last);
                if before.contains(key) {
                    let i = choose|i: int| 0 <= i < before.len() && before[i] == key;
                    assert(keys[i] == key);
                }
                if key == last {
                    assert(keys[keys.len() - 1] == key);
                }
            }
        }
        assert forall|i: int, j: int| 0 <= i < j < keys.len() implies (#[trigger] keys[i]).rank()
            < (#[trigger] keys[j]).rank() by {
            if declares(colors, last) && j == keys.len() - 1 {
                assert(before.contains(before[i]));
            }
        }
    }
}

/// A stylesheet has exactly one declaration for each role that has a color
/// which is not blank, none for any other role, and its declarations stand in
/// canonical order.
pub proof fn lemma_one_declaration_per_color(colors: Map<ColorKey, Seq<char>>)
    ensures
        forall|key: ColorKey| #[trigger]
            rendered_keys(colors).contains(key) <==> declares(colors, key),
        rendered_keys(colors).no_duplicates(),
        forall|i: int, j: int|
            0 <= i < j < rendered_keys(colors).len() ==> (#[trigger] rendered_keys(
                colors,
            )[i]).rank() < (#[trigger] rendered_keys(colors)[j]).rank(),
{
    lemma_declared_keys(colors, COLOR_KEY_COUNT as nat);
    assert forall|key: ColorKey| #[trigger]
        rendered_keys(colors).contains(key) <==> declares(colors, key) by {
        ColorKey::lemma_rank_at(key, 0);
    }
    let keys = rendered_keys(colors);
    assert forall|i: int, j: int|
        0 <= i < keys.len() && 0 <= j < keys.len() && i != j implies keys[i] != keys[j] by {
        if i < j {
            assert(keys[i].rank() < keys[j].rank());
        } else {
            assert(keys[j].rank() < keys[i].rank());
        }
    }
}

proof fn lemma_declared_keys_agree(
    a: Map<ColorKey, Seq<char>>,
    b: Map<ColorKey, Seq<char>>,
    upto: nat,
)
    requires
        forall|key: ColorKey| declares(a, key) == declares(b, key),
    ensures
        declared_keys(a, upto) == declared_keys(b, upto),
    decreases upto,
{
    if upto > 0 {
        lemma_declared_keys_agree(a, b, (upto - 1) as nat);
    }
}

proof fn lemma_declarations_agree(
    a: Map<ColorKey, Seq<char>>,
    b: Map<ColorKey, Seq<char>>,
    keys: Seq<ColorKey>,
)
    requires
        forall|i: int| 0 <= i < keys.len() ==> a[#[trigger] keys[i]] == b[keys[i]],
    ensures
        declarations(a, keys) == declarations(b, keys),
    decreases keys.len(),
{
    if keys.len() > 0 {
        let front = keys.drop_last();
        assert forall|i: int| 0 <= i < front.len() implies a[#[trigger] front[i]] == b[front[i]]
        by {
            assert(front[i] == keys[i]);
        }
        lemma_declarations_agree(a, b, front);
        assert(a[keys[keys.len() - 1]] == b[keys[keys.len() - 1]]);
    }
}

/// The stylesheet depends on the declared colors alone. Themes that give the
/// same roles the same colors render to the same text; a blank color counts
/// as none.
pub proof fn lemma_render_agrees(a: Map<ColorKey, Seq<char>>, b: Map<ColorKey, Seq<char>>)
    requires
        forall|key: ColorKey| declares(a, key) == declares(b, key),
        forall|key: ColorKey| declares(a, key) ==> a[key] == b[key],
    ensures
        render(a) == render(b),
{
    lemma_declared_keys_agree(a, b, COLOR_KEY_COUNT as nat);
    lemma_one_declaration_per_color(a);
    let keys = rendered_keys(a);
    assert forall|i: int| 0 <= i < keys.len() implies a[#[trigger] keys[i]] == b[keys[i]] by {
        assert(keys.contains(keys[i]));
    }
    lemma_declarations_agree(a, b, keys);
}

/// Rendering is stable: documents with the same colors render to the same
/// text, character for character, whatever their names and however often
/// they are rendered.
pub proof fn lemma_render_stable(a: ColorOverrides, b: ColorOverrides)
    requires
        a@.colors == b@.colors,
    ensures
        render(a@.colors) == render(b@.colors),
{
}

/// A theme that declares no role renders to nothing.
pub proof fn lemma_render_nothing(colors: Map<ColorKey, Seq<char>>)
    requires
        forall|key: ColorKey| !declares(colors, key),
    ensures
        render(colors) == Seq::<char>::empty(),
{
    lemma_one_declaration_per_color(colors);
    let keys = rendered_keys(colors);
    if keys.len() > 0 {
        assert(keys.contains(keys[0]));
    }
}

/// A theme that declares a single role renders to the declaration of that
/// role and nothing else.
pub proof fn lemma_render_single(colors: Map<ColorKey, Seq<char>>, key: ColorKey)
    requires
        declares(colors, key),
        forall|other: ColorKey| other != key ==> !declares(colors, other),
    ensures
        render(colors) == declaration(key, colors[key]),
{
    lemma_one_declaration_per_color(colors);
    let keys = rendered_keys(colors);
    assert(keys.contains(key));
    assert forall|i: int| 0 <= i < keys.len() implies keys[i] == key by {
        assert(keys.contains(keys[i]));
    }
    if keys.len() > 1 {
        assert(keys[0] == keys[1]);
    }
    assert(keys.drop_last().len() == 0);
    assert(declarations(colors, keys.drop_last()) == Seq::<char>::empty());
    assert(render(colors) =~= declaration(key, colors[key]));
}

/// A role without a color and a role with a blank color render alike: to
/// nothing.
pub proof fn lemma_blank_renders_as_absent(colors: Map<ColorKey, Seq<char>>, key: ColorKey)
    ensures
        render(colors.insert(key, Seq::empty())) == render(colors.remove(key)),
{
    lemma_render_agrees(colors.insert(key, Seq::empty()), colors.remove(key));
}

impl ColorOverrides {
    /// Renders the overrides as stylesheet text: a `@define-color` line for
    /// each role that has a color, in canonical order. A role without a
    /// color, or with a blank one, gets no line.
    pub fn as_css(&self) -> (css: String)
        ensures
            css@ == render(self@.colors),
    {
        let mut css = String::new();
        let mut rank: usize = 0;
        while rank < COLOR_KEY_COUNT
            invariant
                rank <= COLOR_KEY_COUNT,
                css@ == declarations(self@.colors, declared_keys(self@.colors, rank as nat)),
            decreases COLOR_KEY_COUNT - rank,
        {
            let ghost before = declared_keys(self@.colors, rank as nat);
            match ColorKey::from_rank(rank) {
                Some(key) => match self.get(key) {
                    Some(color) => {
                        if !color.as_str().is_empty() {
                            css.append("@define-color ");
                            css.append(key.name());
                            css.append(" ");
                            css.append(color.as_str());
                            css.append(";\n");
                            proof {
                                let after = before.push(key);
                                assert(after.drop_last() =~= before);
                                assert(css@ =~= declarations(self@.colors, before) + declaration(
                                    key,
                                    color@,
                                ));
                            }
                        }
                    },
                    None => {},
                },
                None => {},
            }
            rank += 1;
        }
        css
    }
}

/// The text to publish for a theme document: its stylesheet, followed by the
/// import directive.
pub fn stylesheet(doc: &ColorOverrides) -> (text: String)
    ensures
        text@ == published_text(doc@.colors),
{
    let mut text = doc.as_css();
    text.append(IMPORT_DIRECTIVE);
    text
}

} // verus!
