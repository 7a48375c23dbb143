use vstd::prelude::*;

verus! {

/// The box with origin `(window_x, window_y)`, width `width` and height
/// `height` covers `[window_x, window_x + width] x [window_y, window_y + height]`,
/// inclusive on all four edges. The box is thus one unit larger on each axis
/// than a conventional half-open rectangle of the same width and height.
pub open spec fn in_window(
    window_x: int,
    window_y: int,
    width: int,
    height: int,
    x: int,
    y: int,
) -> bool {
    &&& window_x <= x <= window_x + width
    &&& window_y <= y <= window_y + height
}

/// Returns true if (`x`, `y`) is in the window at (`window_x`, `window_y`) of
/// width `width` and height `height`.
///
/// A coordinate is also considered "in" the window if it is anywhere on the
/// edge: the hit box is inclusive on all four edges (see [`in_window`]).
pub fn is_in_window(
    window_x: i32,
    window_y: i32,
    width: u32,
    height: u32,
    x: i32,
    y: i32,
) -> (r: bool)
    ensures
        r == in_window(
            window_x as int,
            window_y as int,
            width as int,
            height as int,
            x as int,
            y as int,
        ),
{
    let min_x = window_x as i64;
    let max_x = min_x + width as i64;

    let min_y = window_y as i64;
    let max_y = min_y + height as i64;

    !((x as i64) < min_x || (x as i64) > max_x || (y as i64) < min_y || (y as i64) > max_y)
}

/// Relies on String::push: appends exactly the one character to the string.
#[verifier::external_body]
pub(crate) fn push_char(s: &mut String, c: char)
    ensures
        final(s)@ == old(s)@.push(c),
{
    s.push(c);
}

/// Owns the text cells that [`TextBinder`] handles point into.
///
/// Shared mutable text is expressed as an arena with exactly one owner: every
/// cell lives here, and a [`TextBinder`] is a stable handle addressing one
/// cell. Two holders of handles with the same id share the cell; the last
/// write wins and readers pull the current value on demand.
pub struct TextStore {
    cells: Vec<String>,
}

impl View for TextStore {
    type V = Seq<Seq<char>>;

    closed spec fn view(&self) -> Seq<Seq<char>> {
        Seq::new(self.cells@.len(), |i: int| self.cells@[i]@)
    }
}

impl TextStore {
    /// Creates a store with no cells.
    pub fn new() -> (store: TextStore)
        ensures
            store@ == Seq::<Seq<char>>::empty(),
    {
        let store = TextStore { cells: Vec::new() };
        proof {
            assert(store@ =~= Seq::<Seq<char>>::empty());
        }
        store
    }

    /// The number of cells allocated so far.
    pub fn len(&self) -> (n: usize)
        ensures
            n == self@.len(),
    {
        self.cells.len()
    }
}

/// A handle to one text cell of a [`TextStore`].
///
/// Allows logic to operate on text data without needing to keep tight
/// connections between components: any number of copies of a handle address
/// the same cell, and a write through one copy is visible to the next `get`
/// through any other copy.
#[derive(Clone, Copy)]
pub struct TextBinder {
    index: usize,
}

impl TextBinder {
    /// The id of the cell this handle addresses.
    pub closed spec fn id(self) -> int {
        self.index as int
    }

    /// The handle addresses a cell that `cells` actually holds.
    pub open spec fn valid(self, cells: Seq<Seq<char>>) -> bool {
        0 <= self.id() < cells.len()
    }

    /// Allocates a fresh cell holding `initial_text` and returns its handle.
    /// The handle is distinct from every handle the store has given out
    /// before, since those all address cells below the old length.
    pub fn new(store: &mut TextStore, initial_text: &str) -> (b: TextBinder)
        ensures
            final(store)@ == old(store)@.push(initial_text@),
            b.id() == old(store)@.len(),
            b.valid(final(store)@),
    {
        let index = store.cells.len();
        store.cells.push(initial_text.to_owned());
        proof {
            assert(store@ =~= old(store)@.push(initial_text@));
        }
        TextBinder { index }
    }

    /// Replaces the addressed cell's value, visible to every other holder's
    /// next `get`. A handle that addresses no cell of `store` writes nothing.
    pub fn set(&self, store: &mut TextStore, text: &str)
        ensures
            final(store)@ == if self.valid(old(store)@) {
                old(store)@.update(self.id(), text@)
            } else {
                old(store)@
            },
    {
        if self.index < store.cells.len() {
            store.cells[self.index] = text.to_owned();
            proof {
                assert(store@ =~= old(store)@.update(self.id(), text@));
            }
        }
    }

    /// Returns a snapshot copy of the addressed cell's current value. A handle
    /// that addresses no cell of `store` reads the empty string.
    pub fn get(&self, store: &TextStore) -> (r: String)
        ensures
            r@ == if self.valid(store@) {
                store@[self.id()]
            } else {
                Seq::<char>::empty()
            },
    {
        if self.index < store.cells.len() {
            store.cells[self.index].clone()
        } else {
            String::new()
        }
    }
}

/// Shared-cell law: a write through one handle is visible through every handle
/// with the same id, and every cell with a different id — in particular one
/// independently allocated, whatever text it holds — is unaffected.
pub proof fn lemma_shared_cell(
    cells: Seq<Seq<char>>,
    a: TextBinder,
    b: TextBinder,
    c: TextBinder,
    t: Seq<char>,
)
    requires
        a.valid(cells),
        b.id() == a.id(),
        c.valid(cells),
        c.id() != a.id(),
    ensures
        cells.update(a.id(), t)[b.id()] == t,
        cells.update(a.id(), t)[c.id()] == cells[c.id()],
{
}

} // verus!
