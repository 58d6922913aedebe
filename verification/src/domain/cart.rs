//! The cart, as a plain value. Each line carries the item's display name
//! and unit price as they were when the item was added. Adding an item
//! already in the cart bumps its quantity; quantities are capped at 9999;
//! setting a quantity to zero removes the line.

use vstd::prelude::*;
use crate::domain::catalog::{i64_max, i64_min, saturate, Cents, ItemId};

verus! {

/// One form input caps at four digits; the domain enforces the same limit.
pub const MAX_QUANTITY: u32 = 9999;

/// A cart line by its plain values.
pub struct CartLineView {
    pub item_id: Seq<char>,
    pub name: Seq<char>,
    pub unit_price: i64,
    pub quantity: u32,
}

#[derive(Debug)]
pub struct CartLine {
    pub item_id: ItemId,
    pub name: String,
    pub unit_price: Cents,
    pub quantity: u32,
}

impl View for CartLine {
    type V = CartLineView;

    open spec fn view(&self) -> CartLineView {
        CartLineView {
            item_id: self.item_id@,
            name: self.name@,
            unit_price: self.unit_price.0,
            quantity: self.quantity,
        }
    }
}

/// What a line costs: unit price times quantity, saturating.
pub open spec fn subtotal_of(l: CartLineView) -> i64 {
    saturate(l.unit_price * l.quantity)
}

impl CartLine {
    /// Unit price times quantity, saturating at the bounds of `i64`.
    pub fn subtotal(&self) -> (r: Cents)
        ensures
            r.0 == subtotal_of(self@),
    {
        self.unit_price.times(self.quantity)
    }
}

impl Clone for CartLine {
    fn clone(&self) -> (r: Self)
        ensures
            r@ == self@,
    {
        CartLine {
            item_id: self.item_id.clone(),
            name: self.name.clone(),
            unit_price: self.unit_price,
            quantity: self.quantity,
        }
    }
}

/// `i` is the first line of `lines` that holds the item `id`.
pub open spec fn is_first_line(lines: Seq<CartLineView>, id: Seq<char>, i: int) -> bool {
    &&& 0 <= i < lines.len()
    &&& lines[i].item_id == id
    &&& forall|j: int| 0 <= j < i ==> lines[j].item_id != id
}

/// The position of the first line that holds the item `id`, if any does.
pub open spec fn line_index(lines: Seq<CartLineView>, id: Seq<char>) -> Option<int> {
    if exists|i: int| 0 <= i < lines.len() && lines[i].item_id == id {
        Some(choose|i: int| is_first_line(lines, id, i))
    } else {
        None
    }
}

/// A quantity held to the cap.
pub open spec fn capped(q: int) -> u32 {
    if q < MAX_QUANTITY {
        q as u32
    } else {
        MAX_QUANTITY
    }
}

/// `lines` with the quantity of line `i` replaced by `q`.
pub open spec fn with_quantity_at(lines: Seq<CartLineView>, i: int, q: u32) -> Seq<CartLineView> {
    lines.update(
        i,
        CartLineView {
            item_id: lines[i].item_id,
            name: lines[i].name,
            unit_price: lines[i].unit_price,
            quantity: q,
        },
    )
}

/// The lines after adding one of item `id`: the first line holding it
/// counts one more (up to the cap); otherwise a new line with quantity 1
/// goes at the end.
pub open spec fn added(lines: Seq<CartLineView>, id: Seq<char>, name: Seq<char>, price: i64) -> Seq<
    CartLineView,
> {
    match line_index(lines, id) {
        Some(i) => with_quantity_at(lines, i, capped(lines[i].quantity + 1)),
        None => lines.push(CartLineView { item_id: id, name: name, unit_price: price, quantity: 1 }),
    }
}

/// The lines that do not hold item `id`, in their order.
pub open spec fn without_item(lines: Seq<CartLineView>, id: Seq<char>) -> Seq<CartLineView>
    decreases lines.len(),
{
    if lines.len() == 0 {
        lines
    } else {
        let rest = without_item(lines.drop_last(), id);
        if lines.last().item_id == id {
            rest
        } else {
            rest.push(lines.last())
        }
    }
}

/// The lines after setting item `id` to quantity `q`: zero removes every
/// line of the item; otherwise the first line holding it gets `q` (up to
/// the cap), and a cart without the item stays as it is.
pub open spec fn quantity_set(lines: Seq<CartLineView>, id: Seq<char>, q: u32) -> Seq<CartLineView> {
    if q == 0 {
        without_item(lines, id)
    } else {
        match line_index(lines, id) {
            Some(i) => with_quantity_at(lines, i, capped(q as int)),
            None => lines,
        }
    }
}

/// The sum of the subtotals, added from the first line on and saturating
/// at each step.
pub open spec fn total_of(lines: Seq<CartLineView>) -> i64
    decreases lines.len(),
{
    if lines.len() == 0 {
        0
    } else {
        saturate(total_of(lines.drop_last()) + subtotal_of(lines.last()))
    }
}

/// Every line holds between 1 and 9999 of its item, and no item has two
/// lines.
pub open spec fn wf_lines(lines: Seq<CartLineView>) -> bool {
    &&& forall|i: int| 0 <= i < lines.len() ==> 1 <= #[trigger] lines[i].quantity <= MAX_QUANTITY
    &&& forall|i: int, j: int|
        0 <= i < j < lines.len() ==> #[trigger] lines[i].item_id != #[trigger] lines[j].item_id
}

#[derive(Debug)]
pub struct Cart {
    lines: Vec<CartLine>,
}

impl View for Cart {
    type V = Seq<CartLineView>;

    closed spec fn view(&self) -> Seq<CartLineView> {
        self.lines@.map_values(|l: CartLine| l@)
    }
}

impl Cart {
    /// Every line holds between 1 and 9999 of its item, and no item has two
    /// lines. Every cart built by `default` and changed by the methods
    /// below keeps this.
    pub open spec fn wf(&self) -> bool {
        wf_lines(self@)
    }

    /// A cart with exactly these lines, in this order.
    pub fn from_lines(lines: Vec<CartLine>) -> (r: Cart)
        ensures
            r@ == lines@.map_values(|l: CartLine| l@),
    {
        Cart { lines }
    }

    /// Whether `add` can take another of this item: the first line holding
    /// it, if any, is below `u32::MAX` (always so in a well-formed cart).
    pub fn has_room_for(&self, item_id: &ItemId) -> (r: bool)
        ensures
            r == (line_index(self@, item_id@) matches Some(i) ==> self@[i].quantity < u32::MAX),
    {
        let ghost lines = self@;
        let n = self.lines.len();
        let mut i: usize = 0;
        while i < n
            invariant
                n == self.lines.len(),
                lines == self@,
                i <= n,
                forall|j: int| 0 <= j < i ==> lines[j].item_id != item_id@,
            decreases n - i,
        {
            proof {
                assert(self.lines@[i as int]@ == lines[i as int]);
            }
            if self.lines[i].item_id.same(item_id) {
                proof {
                    lemma_first_line(lines, item_id@, i as int);
                }
                return self.lines[i].quantity < u32::MAX;
            }
            i = i + 1;
        }
        proof {
            lemma_no_line(lines, item_id@);
        }
        true
    }

    /// Adds one of an item. An item already in the cart gets its quantity
    /// bumped (up to 9999); a new item gets a line of its own at the end.
    pub fn add(&mut self, item_id: ItemId, name: String, unit_price: Cents)
        requires
            line_index(old(self)@, item_id@) matches Some(i) ==> old(self)@[i].quantity
                < u32::MAX,
        ensures
            final(self)@ == added(old(self)@, item_id@, name@, unit_price.0),
            old(self).wf() ==> final(self).wf(),
            match line_index(old(self)@, item_id@) {
                Some(i) => {
                    &&& final(self)@.len() == old(self)@.len()
                    &&& forall|k: int|
                        0 <= k < old(self)@.len() && k != i ==> final(self)@[k] == old(self)@[k]
                    &&& final(self)@[i].item_id == item_id@
                    &&& final(self)@[i].quantity == if old(self)@[i].quantity + 1 <= 9999 {
                        old(self)@[i].quantity + 1
                    } else {
                        9999
                    }
                },
                None => {
                    &&& final(self)@.len() == old(self)@.len() + 1
                    &&& forall|k: int| 0 <= k < old(self)@.len() ==> final(self)@[k] == old(self)@[k]
                    &&& final(self)@.last() == CartLineView {
                        item_id: item_id@,
                        name: name@,
                        unit_price: unit_price.0,
                        quantity: 1,
                    }
                },
            },
    {
        proof {
            law_add_bumps_only_its_line(old(self)@, item_id@, name@, unit_price.0);
        }
        let ghost before = self@;
        let n = self.lines.len();
        let mut i: usize = 0;
        while i < n
            invariant
                n == self.lines.len(),
                self@ == before,
                before == old(self)@,
                i <= n,
                forall|j: int| 0 <= j < i ==> before[j].item_id != item_id@,
                line_index(before, item_id@) matches Some(k) ==> before[k].quantity < u32::MAX,
            decreases n - i,
        {
            if self.lines[i].item_id.same(&item_id) {
                proof {
                    assert(self.lines@[i as int]@ == before[i as int]);
                    lemma_first_line(before, item_id@, i as int);
                }
                let bumped = self.lines[i].quantity + 1;
                let quantity = if bumped < MAX_QUANTITY {
                    bumped
                } else {
                    MAX_QUANTITY
                };
                let updated = CartLine {
                    item_id: self.lines[i].item_id.clone(),
                    name: self.lines[i].name.clone(),
                    unit_price: self.lines[i].unit_price,
                    quantity,
                };
                self.lines.set(i, updated);
                proof {
                    assert(self@ =~= added(before, item_id@, name@, unit_price.0));
                    lemma_with_quantity_wf(before, i as int, quantity);
                }
                return;
            }
            proof {
                assert(self.lines@[i as int]@ == before[i as int]);
            }
            i = i + 1;
        }
        proof {
            lemma_no_line(before, item_id@);
        }
        let ghost new_line = CartLineView {
            item_id: item_id@,
            name: name@,
            unit_price: unit_price.0,
            quantity: 1,
        };
        self.lines.push(CartLine { item_id, name, unit_price, quantity: 1 });
        proof {
            assert(self@ =~= before.push(new_line));
            assert(self@ == added(before, item_id@, name@, unit_price.0));
            if wf_lines(before) {
                assert forall|a: int, b: int| 0 <= a < b < self@.len() implies #[trigger] self@[a].item_id
                    != #[trigger] self@[b].item_id by {
                    if b == before.len() {
                        assert(self@[a] == before[a]);
                    } else {
                        assert(self@[a] == before[a]);
                        assert(self@[b] == before[b]);
                    }
                }
            }
        }
    }

    /// Sets an item's quantity. Zero removes the item's line; an item that
    /// is not in the cart is left out; quantities above 9999 become 9999.
    pub fn set_quantity(&mut self, item_id: &ItemId, quantity: u32)
        ensures
            final(self)@ == quantity_set(old(self)@, item_id@, quantity),
            old(self).wf() ==> final(self).wf(),
            quantity == 0 ==> forall|k: int|
                0 <= k < final(self)@.len() ==> final(self)@[k].item_id != item_id@,
            quantity > 0 ==> match line_index(old(self)@, item_id@) {
                Some(i) => {
                    &&& final(self)@.len() == old(self)@.len()
                    &&& forall|k: int|
                        0 <= k < old(self)@.len() && k != i ==> final(self)@[k] == old(self)@[k]
                    &&& final(self)@[i].item_id == item_id@
                    &&& final(self)@[i].quantity == if quantity <= 9999 {
                        quantity
                    } else {
                        9999
                    }
                },
                None => final(self)@ == old(self)@,
            },
    {
        proof {
            law_set_quantity_sets_only_its_line(old(self)@, item_id@, quantity);
        }
        if quantity == 0 {
            self.remove(item_id);
            return;
        }
        let ghost before = self@;
        let n = self.lines.len();
        let mut i: usize = 0;
        while i < n
            invariant
                n == self.lines.len(),
                self@ == before,
                before == old(self)@,
                i <= n,
                quantity > 0,
                forall|j: int| 0 <= j < i ==> before[j].item_id != item_id@,
            decreases n - i,
        {
            if self.lines[i].item_id.same(item_id) {
                proof {
                    assert(self.lines@[i as int]@ == before[i as int]);
                    lemma_first_line(before, item_id@, i as int);
                }
                let capped_quantity = if quantity < MAX_QUANTITY {
                    quantity
                } else {
                    MAX_QUANTITY
                };
                let updated = CartLine {
                    item_id: self.lines[i].item_id.clone(),
                    name: self.lines[i].name.clone(),
                    unit_price: self.lines[i].unit_price,
                    quantity: capped_quantity,
                };
                self.lines.set(i, updated);
                proof {
                    assert(self@ =~= quantity_set(before, item_id@, quantity));
                    lemma_with_quantity_wf(before, i as int, capped_quantity);
                }
                return;
            }
            proof {
                assert(self.lines@[i as int]@ == before[i as int]);
            }
            i = i + 1;
        }
        proof {
            lemma_no_line(before, item_id@);
        }
    }

    /// Removes every line of the item.
    pub fn remove(&mut self, item_id: &ItemId)
        ensures
            final(self)@ == without_item(old(self)@, item_id@),
            old(self).wf() ==> final(self).wf(),
    {
        let ghost before = self@;
        let n = self.lines.len();
        let mut kept: Vec<CartLine> = Vec::new();
        let mut i: usize = 0;
        assert(before.subrange(0, 0) =~= Seq::<CartLineView>::empty());
        while i < n
            invariant
                n == self.lines.len(),
                self@ == before,
                before == old(self)@,
                i <= n,
                kept@.map_values(|l: CartLine| l@) == without_item(before.subrange(0, i as int), item_id@),
            decreases n - i,
        {
            let ghost prefix = before.subrange(0, i as int);
            let ghost next = before.subrange(0, i + 1);
            proof {
                assert(next.drop_last() =~= prefix);
                assert(next.last() == self.lines@[i as int]@);
            }
            if !self.lines[i].item_id.same(item_id) {
                let line = self.lines[i].clone();
                let ghost kept_before = kept@.map_values(|l: CartLine| l@);
                kept.push(line);
                proof {
                    assert(kept@.map_values(|l: CartLine| l@) =~= kept_before.push(line@));
                }
            }
            i = i + 1;
        }
        assert(before.subrange(0, n as int) =~= before);
        self.lines = kept;
        proof {
            lemma_without_item(before, item_id@);
        }
    }

    /// The lines, in the order they were added.
    pub fn lines(&self) -> (r: &[CartLine])
        ensures
            r@.map_values(|l: CartLine| l@) == self@,
    {
        self.lines.as_slice()
    }

    /// Whether the cart has no lines.
    pub fn is_empty(&self) -> (r: bool)
        ensures
            r == (self@.len() == 0),
    {
        self.lines.len() == 0
    }

    /// The sum of the line subtotals, saturating at the bounds of `i64`.
    pub fn total(&self) -> (r: Cents)
        ensures
            r.0 == total_of(self@),
            (forall|n: int|
                0 <= n <= self@.len() ==> i64_min() <= #[trigger] sum_of_subtotals(
                    self@.subrange(0, n),
                ) <= i64_max()) ==> r.0 == sum_of_subtotals(self@),
    {
        proof {
            if forall|n: int|
                0 <= n <= self@.len() ==> i64_min() <= #[trigger] sum_of_subtotals(
                    self@.subrange(0, n),
                ) <= i64_max() {
                law_total_is_the_sum(self@);
            }
        }
        let n = self.lines.len();
        let mut acc = Cents(0);
        let mut i: usize = 0;
        while i < n
            invariant
                n == self.lines.len(),
                i <= n,
                acc.0 == total_of(self@.subrange(0, i as int)),
            decreases n - i,
        {
            let sub = self.lines[i].subtotal();
            proof {
                assert(self@.subrange(0, i + 1).drop_last() =~= self@.subrange(0, i as int));
                assert(self@.subrange(0, i + 1).last() == self.lines@[i as int]@);
            }
            acc = acc.saturating_add(sub);
            i = i + 1;
        }
        assert(self@.subrange(0, n as int) =~= self@);
        acc
    }
}

impl Default for Cart {
    /// The empty cart.
    fn default() -> (r: Cart)
        ensures
            r@ == Seq::<CartLineView>::empty(),
            r.wf(),
    {
        let r = Cart { lines: Vec::new() };
        assert(r@ =~= Seq::<CartLineView>::empty());
        r
    }
}

impl Clone for Cart {
    fn clone(&self) -> (r: Self)
        ensures
            r@ == self@,
    {
        let n = self.lines.len();
        let mut lines: Vec<CartLine> = Vec::new();
        let mut i: usize = 0;
        while i < n
            invariant
                n == self.lines.len(),
                i <= n,
                lines@.map_values(|l: CartLine| l@) == self@.subrange(0, i as int),
            decreases n - i,
        {
            let line = self.lines[i].clone();
            let ghost prev = lines@.map_values(|l: CartLine| l@);
            lines.push(line);
            proof {
                assert(lines@.map_values(|l: CartLine| l@) =~= prev.push(line@));
                assert(self@.subrange(0, i + 1) =~= self@.subrange(0, i as int).push(
                    self.lines@[i as int]@,
                ));
            }
            i = i + 1;
        }
        assert(self@.subrange(0, n as int) =~= self@);
        Cart { lines }
    }
}

/// A line found by scanning from the front is the one `line_index` names.
proof fn lemma_first_line(lines: Seq<CartLineView>, id: Seq<char>, i: int)
    requires
        is_first_line(lines, id, i),
    ensures
        line_index(lines, id) == Some(i),
{
    assert(0 <= i < lines.len() && lines[i].item_id == id);
    let k = choose|k: int| is_first_line(lines, id, k);
    assert(is_first_line(lines, id, k));
    assert(k == i);
}

/// A cart none of whose lines holds `id` has no line index for it.
proof fn lemma_no_line(lines: Seq<CartLineView>, id: Seq<char>)
    requires
        forall|j: int| 0 <= j < lines.len() ==> lines[j].item_id != id,
    ensures
        line_index(lines, id) is None,
{
}

/// Changing one quantity to a value within 1..=9999 keeps the lines
/// well-formed.
proof fn lemma_with_quantity_wf(lines: Seq<CartLineView>, i: int, q: u32)
    requires
        0 <= i < lines.len(),
        1 <= q <= MAX_QUANTITY,
    ensures
        wf_lines(lines) ==> wf_lines(with_quantity_at(lines, i, q)),
{
    let after = with_quantity_at(lines, i, q);
    if wf_lines(lines) {
        assert forall|a: int, b: int| 0 <= a < b < after.len() implies #[trigger] after[a].item_id
            != #[trigger] after[b].item_id by {
            assert(after[a].item_id == lines[a].item_id);
            assert(after[b].item_id == lines[b].item_id);
        }
    }
}

/// Every line of `without_item(lines, id)` is a line of `lines` and none of
/// them holds `id`; well-formed lines stay well-formed.
pub proof fn lemma_without_item(lines: Seq<CartLineView>, id: Seq<char>)
    ensures
        forall|k: int|
            0 <= k < without_item(lines, id).len() ==> #[trigger] without_item(lines, id)[k].item_id
                != id,
        forall|k: int|
            0 <= k < without_item(lines, id).len() ==> exists|j: int|
                0 <= j < lines.len() && lines[j] == #[trigger] without_item(lines, id)[k],
        wf_lines(lines) ==> wf_lines(without_item(lines, id)),
    decreases lines.len(),
{
    if lines.len() > 0 {
        let init = lines.drop_last();
        lemma_without_item(init, id);
        let rest = without_item(init, id);
        let out = without_item(lines, id);
        assert forall|k: int| 0 <= k < out.len() implies exists|j: int|
            0 <= j < lines.len() && lines[j] == #[trigger] out[k] by {
            if k < rest.len() {
                let j = choose|j: int| 0 <= j < init.len() && init[j] == rest[k];
                assert(lines[j] == init[j]);
                assert(out[k] == rest[k]);
            } else {
                assert(out[k] == lines[lines.len() - 1]);
            }
        }
        if wf_lines(lines) {
            assert(wf_lines(init)) by {
                assert forall|a: int, b: int| 0 <= a < b < init.len() implies #[trigger] init[a].item_id
                    != #[trigger] init[b].item_id by {
                    assert(init[a] == lines[a] && init[b] == lines[b]);
                }
            }
            if lines.last().item_id != id {
                assert forall|a: int, b: int| 0 <= a < b < out.len() implies #[trigger] out[a].item_id
                    != #[trigger] out[b].item_id by {
                    if b == rest.len() {
                        let j = choose|j: int| 0 <= j < init.len() && init[j] == rest[a];
                        assert(out[a] == rest[a]);
                        assert(init[j] == lines[j]);
                        assert(out[b] == lines[lines.len() - 1]);
                    } else {
                        assert(out[a] == rest[a] && out[b] == rest[b]);
                    }
                }
                assert forall|a: int| 0 <= a < out.len() implies 1 <= #[trigger] out[a].quantity
                    <= MAX_QUANTITY by {
                    if a < rest.len() {
                        assert(out[a] == rest[a]);
                    }
                }
            }
        }
    }
}

/// Setting an item's quantity to zero leaves no line holding it.
pub proof fn law_zero_quantity_removes(lines: Seq<CartLineView>, id: Seq<char>)
    ensures
        line_index(quantity_set(lines, id, 0), id) is None,
{
    lemma_without_item(lines, id);
    let after = quantity_set(lines, id, 0);
    assert forall|j: int| 0 <= j < after.len() implies after[j].item_id != id by {
        assert(without_item(lines, id)[j].item_id != id);
    }
}

/// Removing an item no line holds changes nothing.
proof fn lemma_without_absent(lines: Seq<CartLineView>, id: Seq<char>)
    requires
        forall|j: int| 0 <= j < lines.len() ==> lines[j].item_id != id,
    ensures
        without_item(lines, id) == lines,
    decreases lines.len(),
{
    if lines.len() > 0 {
        lemma_without_absent(lines.drop_last(), id);
        assert(lines.drop_last().push(lines.last()) =~= lines);
    }
}

/// Removing an item twice is the same as removing it once.
pub proof fn law_remove_is_idempotent(lines: Seq<CartLineView>, id: Seq<char>)
    ensures
        without_item(without_item(lines, id), id) == without_item(lines, id),
{
    lemma_without_item(lines, id);
    lemma_without_absent(without_item(lines, id), id);
}

/// Setting the same quantity twice is the same as setting it once.
pub proof fn law_set_quantity_is_idempotent(lines: Seq<CartLineView>, id: Seq<char>, q: u32)
    ensures
        quantity_set(quantity_set(lines, id, q), id, q) == quantity_set(lines, id, q),
{
    if q == 0 {
        law_remove_is_idempotent(lines, id);
    } else {
        match line_index(lines, id) {
            Some(i) => {
                let j = choose|j: int| 0 <= j < lines.len() && lines[j].item_id == id;
                assert(exists|k: int| is_first_line(lines, id, k)) by {
                    lemma_first_exists(lines, id, j);
                }
                let once = with_quantity_at(lines, i, capped(q as int));
                assert(is_first_line(lines, id, i));
                assert(is_first_line(once, id, i));
                lemma_first_line(once, id, i);
                assert(with_quantity_at(once, i, capped(q as int)) =~= once);
            },
            None => {},
        }
    }
}

/// Where some line holds `id`, a first such line exists.
proof fn lemma_first_exists(lines: Seq<CartLineView>, id: Seq<char>, j: int)
    requires
        0 <= j < lines.len(),
        lines[j].item_id == id,
    ensures
        exists|k: int| is_first_line(lines, id, k),
    decreases j,
{
    if forall|m: int| 0 <= m < j ==> lines[m].item_id != id {
        assert(is_first_line(lines, id, j));
    } else {
        let m2 = choose|m2: int| 0 <= m2 < j && lines[m2].item_id == id;
        lemma_first_exists(lines, id, m2);
    }
}

/// One change to a cart, by its plain values.
pub enum CartOp {
    Add { item_id: Seq<char>, name: Seq<char>, unit_price: i64 },
    SetQuantity { item_id: Seq<char>, quantity: u32 },
    Remove { item_id: Seq<char> },
}

/// The lines after one change (see `Cart::add`, `Cart::set_quantity` and
/// `Cart::remove`).
pub open spec fn apply_op(lines: Seq<CartLineView>, op: CartOp) -> Seq<CartLineView> {
    match op {
        CartOp::Add { item_id, name, unit_price } => added(lines, item_id, name, unit_price),
        CartOp::SetQuantity { item_id, quantity } => quantity_set(lines, item_id, quantity),
        CartOp::Remove { item_id } => without_item(lines, item_id),
    }
}

/// The lines after a sequence of changes, applied in order.
pub open spec fn apply_ops(lines: Seq<CartLineView>, ops: Seq<CartOp>) -> Seq<CartLineView>
    decreases ops.len(),
{
    if ops.len() == 0 {
        lines
    } else {
        apply_op(apply_ops(lines, ops.drop_last()), ops.last())
    }
}

/// One change keeps well-formed lines well-formed.
pub proof fn law_op_keeps_wf(lines: Seq<CartLineView>, op: CartOp)
    requires
        wf_lines(lines),
    ensures
        wf_lines(apply_op(lines, op)),
{
    match op {
        CartOp::Add { item_id, name, unit_price } => {
            law_add_merges(lines, item_id, name, unit_price);
        },
        CartOp::SetQuantity { item_id, quantity } => {
            if quantity == 0 {
                lemma_without_item(lines, item_id);
            } else {
                match line_index(lines, item_id) {
                    Some(i) => {
                        let j = choose|j: int| 0 <= j < lines.len() && lines[j].item_id == item_id;
                        lemma_first_exists(lines, item_id, j);
                        assert(is_first_line(lines, item_id, i));
                        lemma_with_quantity_wf(lines, i, capped(quantity as int));
                    },
                    None => {},
                }
            }
        },
        CartOp::Remove { item_id } => {
            lemma_without_item(lines, item_id);
        },
    }
}

/// Every cart built from the empty cart by any sequence of adds, quantity
/// changes and removals holds each item on at most one line, with a
/// quantity between 1 and 9999.
pub proof fn law_every_cart_is_well_formed(ops: Seq<CartOp>)
    ensures
        wf_lines(apply_ops(Seq::<CartLineView>::empty(), ops)),
    decreases ops.len(),
{
    if ops.len() > 0 {
        law_every_cart_is_well_formed(ops.drop_last());
        law_op_keeps_wf(apply_ops(Seq::<CartLineView>::empty(), ops.drop_last()), ops.last());
    }
}

/// Setting the quantity of an item the cart does not hold changes nothing.
pub proof fn law_absent_item_is_untouched(lines: Seq<CartLineView>, id: Seq<char>, q: u32)
    requires
        q > 0,
        line_index(lines, id) is None,
    ensures
        quantity_set(lines, id, q) == lines,
{
}

/// In a well-formed cart, adding an item leaves exactly the lines that
/// were there plus, for a new item, one line with quantity 1; an item
/// already present keeps its single line, one more of it up to the cap.
pub proof fn law_add_merges(lines: Seq<CartLineView>, id: Seq<char>, name: Seq<char>, price: i64)
    requires
        wf_lines(lines),
    ensures
        wf_lines(added(lines, id, name, price)),
        line_index(added(lines, id, name, price), id) is Some,
        match line_index(lines, id) {
            Some(i) => added(lines, id, name, price).len() == lines.len() && added(
                lines,
                id,
                name,
                price,
            )[i].quantity == capped(lines[i].quantity + 1),
            None => added(lines, id, name, price).len() == lines.len() + 1 && added(
                lines,
                id,
                name,
                price,
            ).last().quantity == 1,
        },
{
    let after = added(lines, id, name, price);
    match line_index(lines, id) {
        Some(i) => {
            let j = choose|j: int| 0 <= j < lines.len() && lines[j].item_id == id;
            assert forall|m: int| 0 <= m < j implies lines[m].item_id != id by {
                assert(lines[m].item_id != lines[j].item_id);
            }
            assert(is_first_line(lines, id, j));
            let k = choose|k: int| is_first_line(lines, id, k);
            assert(is_first_line(lines, id, k));
            assert(i == k);
            lemma_with_quantity_wf(lines, i, capped(lines[i].quantity + 1));
            assert(after[i].item_id == id);
            assert(exists|j: int| 0 <= j < after.len() && after[j].item_id == id);
        },
        None => {
            assert(after[lines.len() as int].item_id == id);
            assert(exists|j: int| 0 <= j < after.len() && after[j].item_id == id);
            assert forall|a: int, b: int| 0 <= a < b < after.len() implies #[trigger] after[a].item_id
                != #[trigger] after[b].item_id by {
                assert(after[a] == lines[a]);
                if b < lines.len() {
                    assert(after[b] == lines[b]);
                }
            }
        },
    }
}

/// The line found for `id` is a line that holds it.
proof fn lemma_line_index_holds(lines: Seq<CartLineView>, id: Seq<char>)
    ensures
        line_index(lines, id) matches Some(i) ==> 0 <= i < lines.len() && lines[i].item_id == id
            && forall|j: int| 0 <= j < i ==> lines[j].item_id != id,
{
    if let Some(i) = line_index(lines, id) {
        let j = choose|j: int| 0 <= j < lines.len() && lines[j].item_id == id;
        lemma_first_exists(lines, id, j);
    }
}

/// Adding one of an item the cart already holds bumps only that item's
/// line: every other line stays as it was, the line keeps its item, name
/// and price, and its quantity goes up by one, stopping at 9999. Adding a
/// new item appends one line with quantity 1 and leaves the rest alone.
pub proof fn law_add_bumps_only_its_line(
    lines: Seq<CartLineView>,
    id: Seq<char>,
    name: Seq<char>,
    price: i64,
)
    ensures
        match line_index(lines, id) {
            Some(i) => {
                let after = added(lines, id, name, price);
                &&& 0 <= i < lines.len()
                &&& lines[i].item_id == id
                &&& after.len() == lines.len()
                &&& forall|k: int| 0 <= k < lines.len() && k != i ==> after[k] == lines[k]
                &&& after[i].item_id == lines[i].item_id
                &&& after[i].name == lines[i].name
                &&& after[i].unit_price == lines[i].unit_price
                &&& after[i].quantity == if lines[i].quantity + 1 <= 9999 {
                    lines[i].quantity + 1
                } else {
                    9999
                }
            },
            None => {
                let after = added(lines, id, name, price);
                &&& forall|k: int| 0 <= k < lines.len() ==> lines[k].item_id != id
                &&& after.len() == lines.len() + 1
                &&& forall|k: int| 0 <= k < lines.len() ==> after[k] == lines[k]
                &&& after[lines.len() as int] == CartLineView {
                    item_id: id,
                    name: name,
                    unit_price: price,
                    quantity: 1,
                }
            },
        },
{
    lemma_line_index_holds(lines, id);
}

/// Setting a quantity from 1 to 9999 on an item the cart holds gives its
/// line exactly that quantity (larger quantities give 9999) and leaves every
/// other line as it was; setting zero leaves no line of the item and keeps
/// only lines the cart had; an item the cart lacks changes nothing.
pub proof fn law_set_quantity_sets_only_its_line(lines: Seq<CartLineView>, id: Seq<char>, q: u32)
    ensures
        q == 0 ==> {
            let after = quantity_set(lines, id, q);
            &&& forall|k: int| 0 <= k < after.len() ==> after[k].item_id != id
            &&& forall|k: int| 0 <= k < after.len() ==> lines.contains(after[k])
            &&& forall|k: int| 0 <= k < lines.len() && lines[k].item_id != id ==> after.contains(
                lines[k],
            )
        },
        q > 0 ==> match line_index(lines, id) {
            Some(i) => {
                let after = quantity_set(lines, id, q);
                &&& 0 <= i < lines.len()
                &&& lines[i].item_id == id
                &&& after.len() == lines.len()
                &&& forall|k: int| 0 <= k < lines.len() && k != i ==> after[k] == lines[k]
                &&& after[i].item_id == lines[i].item_id
                &&& after[i].name == lines[i].name
                &&& after[i].unit_price == lines[i].unit_price
                &&& after[i].quantity == if q <= 9999 {
                    q
                } else {
                    9999
                }
            },
            None => quantity_set(lines, id, q) == lines,
        },
{
    lemma_line_index_holds(lines, id);
    if q == 0 {
        lemma_without_item(lines, id);
        lemma_without_item_keeps(lines, id);
        let after = quantity_set(lines, id, q);
        assert forall|k: int| 0 <= k < after.len() implies lines.contains(after[k]) by {
            let j = choose|j: int| 0 <= j < lines.len() && lines[j] == #[trigger] after[k];
        }
    }
}

/// Every line that does not hold `id` survives its removal.
proof fn lemma_without_item_keeps(lines: Seq<CartLineView>, id: Seq<char>)
    ensures
        forall|k: int|
            0 <= k < lines.len() && lines[k].item_id != id ==> without_item(lines, id).contains(
                lines[k],
            ),
    decreases lines.len(),
{
    if lines.len() > 0 {
        let init = lines.drop_last();
        lemma_without_item_keeps(init, id);
        let rest = without_item(init, id);
        assert forall|k: int| 0 <= k < lines.len() && lines[k].item_id != id implies without_item(
            lines,
            id,
        ).contains(lines[k]) by {
            if k < init.len() {
                assert(init[k] == lines[k]);
                let m = choose|m: int| 0 <= m < rest.len() && rest[m] == init[k];
                if lines.last().item_id != id {
                    assert(without_item(lines, id)[m] == rest[m]);
                }
            } else {
                assert(without_item(lines, id)[rest.len() as int] == lines[k]);
            }
        }
    }
}

/// The total adds every line: one more line adds its subtotal to the total
/// of the lines before it (saturating), whatever the number of lines.
pub proof fn law_total_adds_every_line(lines: Seq<CartLineView>, l: CartLineView)
    ensures
        total_of(lines.push(l)) == saturate(total_of(lines) + subtotal_of(l)),
        total_of(Seq::<CartLineView>::empty()) == 0,
{
    assert(lines.push(l).drop_last() =~= lines);
}

/// The exact sum of the subtotals, without saturation.
pub open spec fn sum_of_subtotals(lines: Seq<CartLineView>) -> int
    decreases lines.len(),
{
    if lines.len() == 0 {
        0
    } else {
        sum_of_subtotals(lines.drop_last()) + subtotal_of(lines.last())
    }
}

/// When no running sum leaves the range of `i64`, the total is exactly the
/// sum of every line's subtotal.
pub proof fn law_total_is_the_sum(lines: Seq<CartLineView>)
    requires
        forall|n: int|
            0 <= n <= lines.len() ==> i64_min() <= #[trigger] sum_of_subtotals(lines.subrange(0, n))
                <= i64_max(),
    ensures
        total_of(lines) == sum_of_subtotals(lines),
    decreases lines.len(),
{
    if lines.len() > 0 {
        let init = lines.drop_last();
        assert forall|n: int| 0 <= n <= init.len() implies i64_min() <= #[trigger] sum_of_subtotals(
            init.subrange(0, n),
        ) <= i64_max() by {
            assert(init.subrange(0, n) =~= lines.subrange(0, n));
        }
        law_total_is_the_sum(init);
        assert(lines.subrange(0, lines.len() as int) =~= lines);
        assert(i64_min() <= sum_of_subtotals(lines.subrange(0, lines.len() as int)) <= i64_max());
    }
}

} // verus!
