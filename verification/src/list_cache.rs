//! Flattened rows of a sectioned list, and keyboard navigation over them.
use vstd::prelude::*;

verus! {

/// Position of an item: its section, row and column.
#[derive(Debug, Clone, Copy, PartialEq, Eq, Hash, Structural)]
pub struct IndexPath {
    pub section: usize,
    pub row: usize,
    pub column: usize,
}

impl Default for IndexPath {
    fn default() -> (r: Self)
        ensures
            r == default_path(),
    {
        IndexPath { section: 0, row: 0, column: 0 }
    }
}

/// The first item of the first section.
pub open spec fn default_path() -> IndexPath {
    IndexPath { section: 0, row: 0, column: 0 }
}

impl IndexPath {
    /// Row `row` of section 0.
    pub fn new(row: usize) -> (r: Self)
        ensures
            r == (IndexPath { section: 0, row, column: 0 }),
    {
        IndexPath { section: 0, row, column: 0 }
    }

    /// This path in section `section`.
    pub fn section(self, section: usize) -> (r: Self)
        ensures
            r == (IndexPath { section, ..self }),
    {
        IndexPath { section, ..self }
    }

    /// This path at row `row`.
    pub fn row(self, row: usize) -> (r: Self)
        ensures
            r == (IndexPath { row, ..self }),
    {
        IndexPath { row, ..self }
    }

    /// This path at column `column`.
    pub fn column(self, column: usize) -> (r: Self)
        ensures
            r == (IndexPath { column, ..self }),
    {
        IndexPath { column, ..self }
    }
}

/// A flattened row: an item, or the header or footer of a section.
#[derive(Debug, Clone, Copy, PartialEq, Eq, Structural)]
pub enum RowEntry {
    Entry(IndexPath),
    SectionHeader(usize),
    SectionFooter(usize),
}

/// The path a row stands for: its item, or the first item of its section.
pub open spec fn entry_index(e: RowEntry) -> IndexPath {
    match e {
        RowEntry::Entry(p) => p,
        RowEntry::SectionHeader(ix) => IndexPath { section: ix, ..default_path() },
        RowEntry::SectionFooter(ix) => IndexPath { section: ix, ..default_path() },
    }
}

impl RowEntry {
    /// Whether this row is the item at `path`.
    pub fn eq_index_path(&self, path: &IndexPath) -> (r: bool)
        ensures
            r == (*self == RowEntry::Entry(*path)),
    {
        match self {
            RowEntry::Entry(index_path) => *index_path == *path,
            RowEntry::SectionHeader(_) | RowEntry::SectionFooter(_) => false,
        }
    }

    /// The path this row stands for.
    pub fn index(&self) -> (r: IndexPath)
        ensures
            r == entry_index(*self),
    {
        match self {
            RowEntry::Entry(index_path) => *index_path,
            RowEntry::SectionHeader(ix) => IndexPath::default().section(*ix),
            RowEntry::SectionFooter(ix) => IndexPath::default().section(*ix),
        }
    }

    /// Whether this row is an item.
    pub fn is_entry(&self) -> (r: bool)
        ensures
            r == (*self is Entry),
    {
        match self {
            RowEntry::Entry(_) => true,
            _ => false,
        }
    }
}

/// Rows `from..to` of section `section`.
pub open spec fn section_items(section: usize, from: int, to: int) -> Seq<RowEntry>
    decreases to - from,
{
    if to <= from {
        Seq::empty()
    } else {
        section_items(section, from, to - 1).push(
            RowEntry::Entry(IndexPath { section, row: (to - 1) as usize, column: 0 }),
        )
    }
}

/// The rows of a section of `count` items: nothing when empty, else its
/// header, items and footer.
pub open spec fn section_rows(section: usize, count: usize) -> Seq<RowEntry> {
    if count == 0 {
        Seq::empty()
    } else {
        seq![RowEntry::SectionHeader(section)] + section_items(section, 0, count as int) + seq![
            RowEntry::SectionFooter(section),
        ]
    }
}

/// The flattened rows of sections with the given item counts.
pub open spec fn flatten(sections: Seq<usize>) -> Seq<RowEntry>
    decreases sections.len(),
{
    if sections.len() == 0 {
        Seq::empty()
    } else {
        flatten(sections.drop_last()) + section_rows(
            (sections.len() - 1) as usize,
            sections.last(),
        )
    }
}

/// Total number of items.
pub open spec fn total_items(sections: Seq<usize>) -> int
    decreases sections.len(),
{
    if sections.len() == 0 {
        0
    } else {
        total_items(sections.drop_last()) + sections.last()
    }
}

/// Index of the first row at or after row `k` that is the item at `path`.
pub open spec fn first_match_from(rows: Seq<RowEntry>, path: IndexPath, k: int) -> Option<int>
    decreases rows.len() - k,
{
    if k >= rows.len() || k < 0 {
        None
    } else if rows[k] == RowEntry::Entry(path) {
        Some(k)
    } else {
        first_match_from(rows, path, k + 1)
    }
}

/// Index of the first row that is the item at `path`.
pub open spec fn first_position(rows: Seq<RowEntry>, path: IndexPath) -> Option<int> {
    first_match_from(rows, path, 0)
}

/// Index of the last item row before row `k`.
pub open spec fn last_item_before(rows: Seq<RowEntry>, k: int) -> Option<int>
    decreases k,
{
    if k <= 0 {
        None
    } else if rows[k - 1] is Entry {
        Some(k - 1)
    } else {
        last_item_before(rows, k - 1)
    }
}

/// Index of the first item row at or after row `k`.
pub open spec fn first_item_from(rows: Seq<RowEntry>, k: int) -> Option<int>
    decreases rows.len() - k,
{
    if k >= rows.len() || k < 0 {
        None
    } else if rows[k] is Entry {
        Some(k)
    } else {
        first_item_from(rows, k + 1)
    }
}

/// The path of the row at an optional index, the default path when none.
pub open spec fn path_at(rows: Seq<RowEntry>, ix: Option<int>) -> IndexPath {
    match ix {
        Some(i) => entry_index(rows[i]),
        None => default_path(),
    }
}

/// The item before `path`, wrapping around from the first to the last
/// item; the last item when `path` is not an item row.
pub open spec fn prev_path(rows: Seq<RowEntry>, path: IndexPath) -> IndexPath {
    match first_position(rows, path) {
        None => path_at(rows, last_item_before(rows, rows.len() as int)),
        Some(pos) => match last_item_before(rows, pos) {
            Some(i) => entry_index(rows[i]),
            None => path_at(rows, last_item_before(rows, rows.len() as int)),
        },
    }
}

/// The item after `path`, wrapping around from the last to the first
/// item; the first item when `path` is not an item row.
pub open spec fn next_path(rows: Seq<RowEntry>, path: IndexPath) -> IndexPath {
    match first_position(rows, path) {
        None => path_at(rows, first_item_from(rows, 0)),
        Some(pos) => match first_item_from(rows, pos + 1) {
            Some(i) => entry_index(rows[i]),
            None => path_at(rows, first_item_from(rows, 0)),
        },
    }
}

proof fn lemma_last_item_before(rows: Seq<RowEntry>, k: int)
    requires
        0 <= k <= rows.len(),
    ensures
        last_item_before(rows, k) matches Some(i) ==> 0 <= i < k && rows[i] is Entry && forall|
            j: int,
        | i < j < k ==> !(#[trigger] rows[j] is Entry),
        last_item_before(rows, k) is None ==> forall|j: int|
            0 <= j < k ==> !(#[trigger] rows[j] is Entry),
    decreases k,
{
    if k > 0 && !(rows[k - 1] is Entry) {
        lemma_last_item_before(rows, k - 1);
    }
}

proof fn lemma_first_match_from(rows: Seq<RowEntry>, path: IndexPath, k: int)
    requires
        0 <= k,
    ensures
        first_match_from(rows, path, k) matches Some(i) ==> k <= i < rows.len() && rows[i]
            == RowEntry::Entry(path),
        first_match_from(rows, path, k) is None ==> forall|j: int|
            k <= j < rows.len() ==> #[trigger] rows[j] != RowEntry::Entry(path),
    decreases rows.len() - k,
{
    if k < rows.len() && rows[k] != RowEntry::Entry(path) {
        lemma_first_match_from(rows, path, k + 1);
    }
}

proof fn lemma_first_item_from(rows: Seq<RowEntry>, k: int)
    requires
        0 <= k,
    ensures
        first_item_from(rows, k) matches Some(i) ==> k <= i < rows.len() && rows[i] is Entry
            && forall|j: int| k <= j < i ==> !(#[trigger] rows[j] is Entry),
        first_item_from(rows, k) is None ==> forall|j: int|
            k <= j < rows.len() ==> !(#[trigger] rows[j] is Entry),
    decreases rows.len() - k,
{
    if k < rows.len() && !(rows[k] is Entry) {
        lemma_first_item_from(rows, k + 1);
    }
}

/// No item appears twice among the rows.
pub open spec fn items_distinct(rows: Seq<RowEntry>) -> bool {
    forall|i: int, j: int|
        0 <= i < j < rows.len() && (#[trigger] rows[i]) is Entry ==> rows[i] != #[trigger] rows[j]
}

/// With distinct items, an item row is the first position of its path.
proof fn lemma_position_of_item(rows: Seq<RowEntry>, i: int)
    requires
        items_distinct(rows),
        0 <= i < rows.len(),
        rows[i] is Entry,
    ensures
        first_position(rows, entry_index(rows[i])) == Some(i),
{
    let q = entry_index(rows[i]);
    assert(rows[i] == RowEntry::Entry(q));
    lemma_first_match_from(rows, q, 0);
    match first_match_from(rows, q, 0) {
        Some(m) => {
            if m < i {
                assert(rows[m] != rows[i]);
            }
        },
        None => {
            assert(rows[i] != RowEntry::Entry(q));
        },
    }
}

/// The first item at or after `k` is at `x` when `x` holds an item and no
/// row in between does.
proof fn lemma_first_item_at(rows: Seq<RowEntry>, k: int, x: int)
    requires
        0 <= k <= x < rows.len(),
        rows[x] is Entry,
        forall|j: int| k <= j < x ==> !(#[trigger] rows[j] is Entry),
    ensures
        first_item_from(rows, k) == Some(x),
{
    lemma_first_item_from(rows, k);
    match first_item_from(rows, k) {
        Some(i) => {
            if i > x {
                assert(!(rows[x] is Entry));
            }
        },
        None => {
            assert(!(rows[x] is Entry));
        },
    }
}

/// The last item before `k` is at `x` when `x` holds an item and no row
/// after it up to `k` does.
proof fn lemma_last_item_at(rows: Seq<RowEntry>, k: int, x: int)
    requires
        0 <= x < k <= rows.len(),
        rows[x] is Entry,
        forall|j: int| x < j < k ==> !(#[trigger] rows[j] is Entry),
    ensures
        last_item_before(rows, k) == Some(x),
{
    lemma_last_item_before(rows, k);
    match last_item_before(rows, k) {
        Some(i) => {
            if i < x {
                assert(!(rows[x] is Entry));
            }
        },
        None => {
            assert(!(rows[x] is Entry));
        },
    }
}

/// Moving to the next item after moving to the previous one comes back,
/// wrapping around at either end; and the other way round.
pub proof fn law_next_undoes_prev(rows: Seq<RowEntry>, p: IndexPath)
    requires
        items_distinct(rows),
        first_position(rows, p) is Some,
    ensures
        next_path(rows, prev_path(rows, p)) == p,
        prev_path(rows, next_path(rows, p)) == p,
{
    let n = rows.len() as int;
    lemma_first_match_from(rows, p, 0);
    let pos = first_position(rows, p)->0;
    assert(rows[pos] == RowEntry::Entry(p));
    lemma_last_item_before(rows, pos);
    lemma_last_item_before(rows, n);
    lemma_first_item_from(rows, pos + 1);
    lemma_first_item_from(rows, 0);
    // next(prev(p)) == p
    match last_item_before(rows, pos) {
        Some(i) => {
            lemma_position_of_item(rows, i);
            lemma_first_item_at(rows, i + 1, pos);
        },
        None => {
            let l = last_item_before(rows, n)->0;
            if l < pos {
                assert(!(rows[pos] is Entry));
            }
            lemma_position_of_item(rows, l);
            lemma_first_item_from(rows, l + 1);
            lemma_first_item_at(rows, 0, pos);
        },
    }
    // prev(next(p)) == p
    match first_item_from(rows, pos + 1) {
        Some(i) => {
            lemma_position_of_item(rows, i);
            lemma_last_item_at(rows, i, pos);
        },
        None => {
            let f = first_item_from(rows, 0)->0;
            if f > pos {
                assert(!(rows[pos] is Entry));
            }
            lemma_position_of_item(rows, f);
            lemma_last_item_before(rows, f);
            lemma_last_item_at(rows, n, pos);
        },
    }
}

proof fn lemma_section_items(section: usize, from: int, to: int)
    requires
        0 <= from <= to <= usize::MAX + 1,
    ensures
        section_items(section, from, to).len() == to - from,
        forall|i: int|
            0 <= i < to - from ==> #[trigger] section_items(section, from, to)[i]
                == RowEntry::Entry(IndexPath { section, row: (from + i) as usize, column: 0 }),
    decreases to - from,
{
    if to > from {
        lemma_section_items(section, from, to - 1);
    }
}

/// The items of a section are distinct and carry its index.
proof fn lemma_section_rows(section: usize, count: usize)
    ensures
        items_distinct(section_rows(section, count)),
        forall|i: int|
            0 <= i < section_rows(section, count).len() && (#[trigger] section_rows(
                section,
                count,
            )[i]) is Entry ==> section_rows(section, count)[i]->Entry_0.section == section,
{
    let rows = section_rows(section, count);
    if count > 0 {
        lemma_section_items(section, 0, count as int);
        let items = section_items(section, 0, count as int);
        assert forall|i: int| 0 <= i < rows.len() && (#[trigger] rows[i]) is Entry implies 1 <= i
            <= count && rows[i] == items[i - 1] by {
            if i == 0 {
            } else if i <= count {
                assert(rows[i] == items[i - 1]);
            } else {
                assert(rows[i] == RowEntry::SectionFooter(section));
            }
        }
        assert forall|i: int, j: int|
            0 <= i < j < rows.len() && (#[trigger] rows[i]) is Entry implies rows[i]
                != #[trigger] rows[j] by {
            if rows[j] is Entry {
                assert(rows[i] == items[i - 1] && rows[j] == items[j - 1]);
            }
        }
    }
}

/// Every item of the flattened rows is distinct, and its section is one of
/// the sections.
proof fn lemma_flatten_distinct(sections: Seq<usize>)
    requires
        sections.len() <= usize::MAX,
    ensures
        items_distinct(flatten(sections)),
        forall|i: int|
            0 <= i < flatten(sections).len() && (#[trigger] flatten(sections)[i]) is Entry
                ==> flatten(sections)[i]->Entry_0.section < sections.len(),
    decreases sections.len(),
{
    if sections.len() > 0 {
        let prev = sections.drop_last();
        lemma_flatten_distinct(prev);
        let m = (sections.len() - 1) as usize;
        lemma_section_rows(m, sections.last());
        let a = flatten(prev);
        let b = section_rows(m, sections.last());
        let rows = flatten(sections);
        assert(rows == a + b);
        assert forall|i: int|
            0 <= i < rows.len() && (#[trigger] rows[i]) is Entry implies rows[i]->Entry_0.section
                < sections.len() by {
            if i < a.len() {
                assert(rows[i] == a[i]);
            } else {
                assert(rows[i] == b[i - a.len()]);
            }
        }
        assert forall|i: int, j: int|
            0 <= i < j < rows.len() && (#[trigger] rows[i]) is Entry implies rows[i]
                != #[trigger] rows[j] by {
            if j < a.len() {
                assert(rows[i] == a[i] && rows[j] == a[j]);
            } else if i >= a.len() {
                assert(rows[i] == b[i - a.len()] && rows[j] == b[j - a.len()]);
            } else {
                assert(rows[i] == a[i] && rows[j] == b[j - a.len()]);
                if rows[j] is Entry {
                    assert(rows[j]->Entry_0.section == m);
                }
            }
        }
    }
}

/// The flattened rows of a sectioned list.
pub struct RowsCache {
    entities: Vec<RowEntry>,
    items_count: usize,
    sections: Vec<usize>,
}

impl RowsCache {
    /// The rows are those of the sections, and the item count their total.
    pub closed spec fn wf(&self) -> bool {
        &&& self.entities@ == flatten(self.sections@)
        &&& self.items_count == total_items(self.sections@)
        &&& self.sections@.len() <= usize::MAX
    }

    pub closed spec fn rows(&self) -> Seq<RowEntry> {
        self.entities@
    }

    pub closed spec fn section_counts(&self) -> Seq<usize> {
        self.sections@
    }

    /// An empty list.
    pub fn new() -> (r: Self)
        ensures
            r.wf(),
            r.rows() == Seq::<RowEntry>::empty(),
            r.section_counts() == Seq::<usize>::empty(),
    {
        RowsCache { entities: Vec::new(), items_count: 0, sections: Vec::new() }
    }

    /// The row at flattened index `flatten_ix`.
    pub fn get(&self, flatten_ix: usize) -> (r: Option<RowEntry>)
        ensures
            r == (if flatten_ix < self.rows().len() {
                Some(self.rows()[flatten_ix as int])
            } else {
                None
            }),
    {
        if flatten_ix < self.entities.len() {
            Some(self.entities[flatten_ix])
        } else {
            None
        }
    }

    /// Number of flattened rows (headers, items and footers).
    pub fn len(&self) -> (r: usize)
        ensures
            r == self.rows().len(),
    {
        self.entities.len()
    }

    /// Number of items (headers and footers excluded).
    pub fn items_count(&self) -> (r: usize)
        requires
            self.wf(),
        ensures
            r == total_items(self.section_counts()),
    {
        self.items_count
    }

    /// Flattened index of the item at `path`.
    pub fn position_of(&self, path: &IndexPath) -> (r: Option<usize>)
        ensures
            r matches Some(i) ==> first_position(self.rows(), *path) == Some(i as int) && i
                < self.rows().len(),
            r is None ==> first_position(self.rows(), *path) is None,
    {
        let n = self.entities.len();
        let mut i: usize = 0;
        while i < n
            invariant
                n == self.entities@.len(),
                i <= n,
                first_match_from(self.entities@, *path, i as int) == first_match_from(
                    self.entities@,
                    *path,
                    0,
                ),
            decreases n - i,
        {
            if self.entities[i].is_entry() && self.entities[i].eq_index_path(path) {
                return Some(i);
            }
            i += 1;
        }
        None
    }

    /// Index of the last item row before row `k`.
    fn last_item_before(&self, k: usize) -> (r: Option<usize>)
        requires
            k <= self.rows().len(),
        ensures
            r matches Some(i) ==> last_item_before(self.rows(), k as int) == Some(i as int) && i
                < k,
            r is None ==> last_item_before(self.rows(), k as int) is None,
    {
        let mut j = k;
        while j > 0 && !self.entities[j - 1].is_entry()
            invariant
                j <= k <= self.entities@.len(),
                last_item_before(self.entities@, j as int) == last_item_before(
                    self.entities@,
                    k as int,
                ),
            decreases j,
        {
            j -= 1;
        }
        if j == 0 {
            None
        } else {
            Some(j - 1)
        }
    }

    /// Index of the first item row at or after row `k`.
    fn first_item_from(&self, k: usize) -> (r: Option<usize>)
        ensures
            r matches Some(i) ==> first_item_from(self.rows(), k as int) == Some(i as int) && k
                <= i < self.rows().len(),
            r is None ==> first_item_from(self.rows(), k as int) is None,
    {
        let n = self.entities.len();
        let mut j = k;
        while j < n && !self.entities[j].is_entry()
            invariant
                n == self.entities@.len(),
                k <= j,
                first_item_from(self.entities@, j as int) == first_item_from(
                    self.entities@,
                    k as int,
                ),
            decreases n - j,
        {
            j += 1;
        }
        if j >= n {
            None
        } else {
            Some(j)
        }
    }

    /// The previous item row, wrapping around and skipping empty sections.
    pub fn prev(&self, path: Option<IndexPath>) -> (r: IndexPath)
        ensures
            r == prev_path(
                self.rows(),
                match path {
                    Some(p) => p,
                    None => default_path(),
                },
            ),
    {
        let path = match path {
            Some(p) => p,
            None => IndexPath::default(),
        };
        let last = match self.last_item_before(self.entities.len()) {
            Some(i) => self.entities[i].index(),
            None => IndexPath::default(),
        };
        match self.position_of(&path) {
            None => last,
            Some(pos) => {
                match self.last_item_before(pos) {
                    Some(i) => self.entities[i].index(),
                    None => last,
                }
            },
        }
    }

    /// The next item row, wrapping around and skipping empty sections; the
    /// first item when there is no current one.
    pub fn next(&self, path: Option<IndexPath>) -> (r: IndexPath)
        ensures
            r == match path {
                Some(p) => next_path(self.rows(), p),
                None => default_path(),
            },
    {
        let path = match path {
            Some(p) => p,
            None => return IndexPath::default(),
        };
        let first = match self.first_item_from(0) {
            Some(i) => self.entities[i].index(),
            None => IndexPath::default(),
        };
        match self.position_of(&path) {
            None => first,
            Some(pos) => {
                let n = self.entities.len();
                assert(pos < n);
                match self.first_item_from(pos + 1) {
                    Some(i) => {
                        self.entities[i].index()
                    },
                    None => first,
                }
            },
        }
    }

    /// Rebuilds the rows for sections with the given item counts when they
    /// changed or the measured sizes did (`sizes_changed`); returns whether
    /// it rebuilt (the row sizes are then measured again).
    pub fn prepare_if_needed(&mut self, sections: Vec<usize>, sizes_changed: bool) -> (r: bool)
        requires
            old(self).wf(),
            total_items(sections@) <= usize::MAX,
        ensures
            final(self).wf(),
            r == (sections@ != old(self).section_counts() || sizes_changed),
            final(self).section_counts() == sections@,
            final(self).rows() == flatten(sections@),
    {
        let same = vec_equal(&sections, &self.sections);
        if same && !sizes_changed {
            return false;
        }
        let mut entities: Vec<RowEntry> = Vec::new();
        let mut total: usize = 0;
        let mut section: usize = 0;
        while section < sections.len()
            invariant
                section <= sections@.len(),
                total_items(sections@) <= usize::MAX,
                entities@ == flatten(sections@.take(section as int)),
                total == total_items(sections@.take(section as int)),
            decreases sections@.len() - section,
        {
            let count = sections[section];
            proof {
                let t = sections@.take(section + 1);
                assert(t.drop_last() =~= sections@.take(section as int));
                lemma_total_items_prefix(sections@, section + 1);
            }
            let ghost before = entities@;
            if count > 0 {
                entities.push(RowEntry::SectionHeader(section));
                let mut row: usize = 0;
                while row < count
                    invariant
                        row <= count,
                        entities@ == before + seq![RowEntry::SectionHeader(section)]
                            + section_items(section, 0, row as int),
                    decreases count - row,
                {
                    entities.push(RowEntry::Entry(IndexPath { section, row, column: 0 }));
                    row += 1;
                }
                entities.push(RowEntry::SectionFooter(section));
            }
            assert(entities@ =~= before + section_rows(section, count));
            total = total + count;
            section += 1;
        }
        assert(sections@.take(sections@.len() as int) =~= sections@);
        self.entities = entities;
        self.sections = sections;
        self.items_count = total;
        true
    }
}

/// In a list's rows, moving to the next item after moving to the previous
/// one comes back to the item, and the other way round, wrapping around at
/// either end.
pub proof fn law_rows_next_undoes_prev(cache: RowsCache, p: IndexPath)
    requires
        cache.wf(),
        first_position(cache.rows(), p) is Some,
    ensures
        next_path(cache.rows(), prev_path(cache.rows(), p)) == p,
        prev_path(cache.rows(), next_path(cache.rows(), p)) == p,
{
    lemma_flatten_distinct(cache.sections@);
    law_next_undoes_prev(cache.rows(), p);
}

/// Totals of prefixes never exceed the total.
proof fn lemma_total_items_prefix(s: Seq<usize>, k: int)
    requires
        0 <= k <= s.len(),
    ensures
        total_items(s.take(k)) <= total_items(s),
    decreases s.len() - k,
{
    if k < s.len() {
        lemma_total_items_prefix(s, k + 1);
        assert(s.take(k + 1).drop_last() =~= s.take(k));
    } else {
        assert(s.take(k) =~= s);
    }
}

/// Whether two vectors of counts are equal.
fn vec_equal(a: &Vec<usize>, b: &Vec<usize>) -> (r: bool)
    ensures
        r == (a@ == b@),
{
    if a.len() != b.len() {
        return false;
    }
    let mut i: usize = 0;
    while i < a.len()
        invariant
            a@.len() == b@.len(),
            i <= a@.len(),
            forall|j: int| 0 <= j < i ==> a@[j] == b@[j],
        decreases a@.len() - i,
    {
        if a[i] != b[i] {
            return false;
        }
        i += 1;
    }
    assert(a@ =~= b@);
    true
}

} // verus!
