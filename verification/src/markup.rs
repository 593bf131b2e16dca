//! Color markup inside a text.
//!
//! A text may switch colors with markers: `#[name]` makes the named color
//! the current one, and `#[]` goes back to the color before it. The text is
//! cut at every `#[`. Each piece then reads as a name, a `]` and the
//! characters to show in that color; a piece without a `]` shows nothing.

use vstd::prelude::*;
use crate::color::Rgba;

verus! {

/// The characters of a text, in order.
pub fn chars_of(text: &str) -> (chars: Vec<char>)
    ensures
        chars@ == text@,
{
    let mut chars: Vec<char> = Vec::new();
    for c in it: text.chars()
        invariant
            it.seq() == text@,
            chars@ == it.seq().take(it.index() as int),
    {
        chars.push(c);
        assert(chars@ =~= it.seq().take(it.index() + 1));
    }
    assert(chars@ =~= text@);
    chars
}

/// The color that a list of named colors gives to `name`: that of the last
/// entry with this name.
pub open spec fn named_color(entries: Seq<(Seq<char>, Rgba)>, name: Seq<char>) -> Option<Rgba>
    decreases entries.len(),
{
    if entries.len() == 0 {
        None
    } else if entries.last().0 == name {
        Some(entries.last().1)
    } else {
        named_color(entries.drop_last(), name)
    }
}

/// Named colors for use in markup. Registering a name again replaces its
/// color.
pub struct Palette {
    entries: Vec<(Vec<char>, Rgba)>,
}

impl View for Palette {
    type V = Seq<(Seq<char>, Rgba)>;

    closed spec fn view(&self) -> Seq<(Seq<char>, Rgba)> {
        self.entries@.map_values(|e: (Vec<char>, Rgba)| (e.0@, e.1))
    }
}

impl Palette {
    /// A palette without colors.
    pub fn new() -> (p: Palette)
        ensures
            p@ == Seq::<(Seq<char>, Rgba)>::empty(),
    {
        let p = Palette { entries: Vec::new() };
        assert(p@ =~= Seq::<(Seq<char>, Rgba)>::empty());
        p
    }

    /// Gives `name` the color `color`.
    pub fn register(&mut self, name: &str, color: Rgba)
        ensures
            final(self)@ == old(self)@.push((name@, color)),
            named_color(final(self)@, name@) == Some(color),
    {
        let chars = chars_of(name);
        self.entries.push((chars, color));
        assert(self@ =~= old(self)@.push((name@, color)));
    }

    /// The color registered under `name`, if there is one.
    pub fn lookup(&self, name: &str) -> (r: Option<Rgba>)
        ensures
            r == named_color(self@, name@),
    {
        let chars = chars_of(name);
        assert(chars@.subrange(0, chars@.len() as int) =~= chars@);
        self.lookup_range(&chars, 0, chars.len())
    }

    /// The color registered under the name that stands in `text` from index
    /// `from` up to `to`.
    pub fn lookup_range(&self, text: &Vec<char>, from: usize, to: usize) -> (r: Option<Rgba>)
        requires
            from <= to <= text.len(),
        ensures
            r == named_color(self@, text@.subrange(from as int, to as int)),
    {
        let ghost name = text@.subrange(from as int, to as int);
        let mut i: usize = self.entries.len();
        assert(self@.take(i as int) =~= self@);
        while i > 0
            invariant
                i <= self.entries.len(),
                from <= to <= text.len(),
                name == text@.subrange(from as int, to as int),
                named_color(self@, name) == named_color(self@.take(i as int), name),
            decreases i,
        {
            i -= 1;
            assert(self@.take(i + 1).drop_last() =~= self@.take(i as int));
            assert(self@.take(i + 1).last() == (self.entries[i as int].0@, self.entries[i as int].1));
            if same_chars(&self.entries[i].0, text, from, to) {
                return Some(self.entries[i].1);
            }
        }
        None
    }
}

/// Whether `name` holds exactly the characters of `text` from `from` up to
/// `to`.
fn same_chars(name: &Vec<char>, text: &Vec<char>, from: usize, to: usize) -> (same: bool)
    requires
        from <= to <= text.len(),
    ensures
        same == (name@ == text@.subrange(from as int, to as int)),
{
    if name.len() != to - from {
        return false;
    }
    let mut i: usize = 0;
    while i < name.len()
        invariant
            from <= to <= text.len(),
            name.len() == to - from,
            i <= name.len(),
            forall|k: int| 0 <= k < i ==> name@[k] == text@[from + k],
        decreases name.len() - i,
    {
        if name[i] != text[from + i] {
            assert(text@.subrange(from as int, to as int)[i as int] == text@[from + i]);
            return false;
        }
        i += 1;
    }
    assert(name@ =~= text@.subrange(from as int, to as int));
    true
}

/// Whether a marker, a `#` followed by a `[`, starts at index `i`.
pub open spec fn marker_at(text: Seq<char>, i: int) -> bool {
    0 <= i && i + 1 < text.len() && text[i] == '#' && text[i + 1] == '['
}

/// The index of the first marker at or after `from`, or the length of the
/// text if there is none.
pub open spec fn next_marker(text: Seq<char>, from: int) -> int
    decreases text.len() - from,
{
    if from >= text.len() {
        text.len() as int
    } else if marker_at(text, from) {
        from
    } else {
        next_marker(text, from + 1)
    }
}

/// The index of the first `]` from `from` up to `end`, or `end` if there is
/// none.
pub open spec fn next_close(text: Seq<char>, from: int, end: int) -> int
    decreases end - from,
{
    if from >= end {
        end
    } else if text[from] == ']' {
        from
    } else {
        next_close(text, from + 1, end)
    }
}

/// The color in force: the one entered last and not yet left, or white.
pub open spec fn current_color(stack: Seq<Rgba>) -> Rgba {
    if stack.len() > 0 {
        stack.last()
    } else {
        Rgba::spec_white()
    }
}

/// The colors entered and not yet left, after a marker with `name`. A name
/// enters its color; a name that the palette lacks enters the color in
/// force once more. An empty name leaves the color entered last.
pub open spec fn stack_after(
    stack: Seq<Rgba>,
    name: Seq<char>,
    palette: Seq<(Seq<char>, Rgba)>,
) -> Seq<Rgba> {
    if name.len() > 0 {
        stack.push(
            match named_color(palette, name) {
                Some(c) => c,
                None => current_color(stack),
            },
        )
    } else if stack.len() > 0 {
        stack.drop_last()
    } else {
        stack
    }
}

/// A text with a color for each of its characters.
pub ghost struct StyledView {
    pub chars: Seq<char>,
    pub colors: Seq<Rgba>,
}

impl StyledView {
    /// The text without characters.
    pub open spec fn empty() -> StyledView {
        StyledView { chars: Seq::empty(), colors: Seq::empty() }
    }

    /// This text followed by `other`.
    pub open spec fn concat(self, other: StyledView) -> StyledView {
        StyledView { chars: self.chars + other.chars, colors: self.colors + other.colors }
    }

    /// The characters `chars`, all in one color.
    pub open spec fn uniform(chars: Seq<char>, color: Rgba) -> StyledView {
        StyledView { chars, colors: Seq::new(chars.len(), |i: int| color) }
    }
}

/// What the pieces of a text show from index `from` on, where a piece
/// starts, with the colors in `stack` entered and not yet left.
pub open spec fn styled_from(
    text: Seq<char>,
    from: int,
    stack: Seq<Rgba>,
    palette: Seq<(Seq<char>, Rgba)>,
) -> StyledView
    decreases text.len() + 2 - from,
{
    let end = next_marker(text, from);
    let close = next_close(text, from, end);
    if from < 0 || from >= text.len() || end < from || end > text.len() {
        StyledView::empty()
    } else if close < end {
        let entered = stack_after(stack, text.subrange(from, close), palette);
        StyledView::uniform(text.subrange(close + 1, end), current_color(entered)).concat(
            if end < text.len() {
                styled_from(text, end + 2, entered, palette)
            } else {
                StyledView::empty()
            },
        )
    } else if end < text.len() {
        styled_from(text, end + 2, stack, palette)
    } else {
        StyledView::empty()
    }
}

/// What a text with color markup shows: its characters without the
/// markers, each with its color.
pub open spec fn styled(text: Seq<char>, palette: Seq<(Seq<char>, Rgba)>) -> StyledView {
    styled_from(text, 0, Seq::empty(), palette)
}

/// A text with a color for each of its characters.
pub struct StyledText {
    pub chars: Vec<char>,
    pub colors: Vec<Rgba>,
}

impl View for StyledText {
    type V = StyledView;

    open spec fn view(&self) -> StyledView {
        StyledView { chars: self.chars@, colors: self.colors@ }
    }
}

/// Finds the first marker at or after `from`.
fn find_marker(text: &Vec<char>, from: usize) -> (end: usize)
    requires
        from <= text.len(),
    ensures
        end == next_marker(text@, from as int),
        from <= end <= text.len(),
        end < text.len() ==> end + 2 <= text.len(),
{
    let mut i: usize = from;
    while i < text.len()
        invariant
            from <= i <= text.len(),
            next_marker(text@, from as int) == next_marker(text@, i as int),
        decreases text.len() - i,
    {
        if text[i] == '#' && i + 1 < text.len() && text[i + 1] == '[' {
            return i;
        }
        i += 1;
    }
    i
}

/// Finds the first `]` from `from` up to `end`.
fn find_close(text: &Vec<char>, from: usize, end: usize) -> (close: usize)
    requires
        from <= end <= text.len(),
    ensures
        close == next_close(text@, from as int, end as int),
        from <= close <= end,
{
    let mut i: usize = from;
    while i < end
        invariant
            from <= i <= end <= text.len(),
            next_close(text@, from as int, end as int) == next_close(text@, i as int, end as int),
        decreases end - i,
    {
        if text[i] == ']' {
            return i;
        }
        i += 1;
    }
    i
}

/// Reads the color markup of a text: returns the characters that it shows,
/// each with its color.
pub fn parse_markup(text: &Vec<char>, palette: &Palette) -> (r: StyledText)
    ensures
        r@ == styled(text@, palette@),
        r@.colors.len() == r@.chars.len(),
{
    let mut chars: Vec<char> = Vec::new();
    let mut colors: Vec<Rgba> = Vec::new();
    let mut stack: Vec<Rgba> = Vec::new();
    let mut from: usize = 0;
    assert((StyledView { chars: chars@, colors: colors@ }).concat(
        styled_from(text@, 0, stack@, palette@),
    ).chars =~= styled(text@, palette@).chars);
    assert((StyledView { chars: chars@, colors: colors@ }).concat(
        styled_from(text@, 0, stack@, palette@),
    ).colors =~= styled(text@, palette@).colors);
    while from < text.len()
        invariant
            from <= text.len(),
            colors@.len() == chars@.len(),
            styled(text@, palette@) == (StyledView { chars: chars@, colors: colors@ }).concat(
                styled_from(text@, from as int, stack@, palette@),
            ),
        decreases text.len() - from,
    {
        let end = find_marker(text, from);
        let close = find_close(text, from, end);
        let ghost shown = StyledView { chars: chars@, colors: colors@ };
        let ghost entered_before = stack@;
        if close < end {
            if close > from {
                let found = palette.lookup_range(text, from, close);
                let color = match found {
                    Some(c) => c,
                    None => top_color(&stack),
                };
                stack.push(color);
            } else if stack.len() > 0 {
                stack.pop();
            }
            assert(text@.subrange(from as int, close as int).len() == close - from);
            assert(stack@ =~= stack_after(
                entered_before,
                text@.subrange(from as int, close as int),
                palette@,
            ));
            let color = top_color(&stack);
            let ghost span = StyledView::uniform(
                text@.subrange(close + 1, end as int),
                current_color(stack@),
            );
            let mut j: usize = close + 1;
            while j < end
                invariant
                    close + 1 <= j <= end <= text.len(),
                    color == current_color(stack@),
                    colors@.len() == chars@.len(),
                    chars@ == shown.chars + text@.subrange(close + 1, j as int),
                    colors@ == shown.colors + Seq::new(
                        (j - (close + 1)) as nat,
                        |i: int| current_color(stack@),
                    ),
                decreases end - j,
            {
                chars.push(text[j]);
                colors.push(color);
                j += 1;
                assert(chars@ =~= shown.chars + text@.subrange(close + 1, j as int));
                assert(colors@ =~= shown.colors + Seq::new(
                    (j - (close + 1)) as nat,
                    |i: int| current_color(stack@),
                ));
            }
            proof {
                let rest = if end < text.len() {
                    styled_from(text@, end + 2, stack@, palette@)
                } else {
                    StyledView::empty()
                };
                assert(colors@ =~= shown.colors + span.colors);
                assert((StyledView { chars: chars@, colors: colors@ }).concat(rest).chars
                    =~= shown.concat(span.concat(rest)).chars);
                assert((StyledView { chars: chars@, colors: colors@ }).concat(rest).colors
                    =~= shown.concat(span.concat(rest)).colors);
            }
        }
        if end < text.len() {
            from = end + 2;
        } else {
            from = text.len();
        }
    }
    proof {
        let rest = styled_from(text@, from as int, stack@, palette@);
        assert(chars@ + rest.chars =~= chars@);
        assert(colors@ + rest.colors =~= colors@);
    }
    StyledText { chars, colors }
}

/// The color in force for a stack of entered colors.
fn top_color(stack: &Vec<Rgba>) -> (c: Rgba)
    ensures
        c == current_color(stack@),
{
    if stack.len() > 0 {
        stack[stack.len() - 1]
    } else {
        Rgba::white()
    }
}

} // verus!
