//! The catalog as types: ids that are valid by existence, money as integer
//! cents, and the legacy description markup parsed into parts.

use vstd::prelude::*;
use vstd::string::*;
use vstd::std_specs::cmp::PartialEqSpecImpl;
use vstd::utf8::encode_utf8;
use crate::text::{
    decimal, digit_char, find, first_occurrence, occurs_at, push_decimal, signed_decimal, trim,
    trimmed,
};

verus! {

/// The largest value an `i64` can hold, as a mathematical integer.
pub open spec fn i64_max() -> int {
    0x7fff_ffff_ffff_ffff
}

/// The smallest value an `i64` can hold, as a mathematical integer.
pub open spec fn i64_min() -> int {
    -0x8000_0000_0000_0000
}

/// `x` pinned into the range of `i64`: what a saturating operation returns
/// when the exact result is `x`.
pub open spec fn saturate(x: int) -> i64 {
    if x > i64_max() {
        i64::MAX
    } else if x < i64_min() {
        i64::MIN
    } else {
        x as i64
    }
}

/// The number of bytes `s` takes in UTF-8, which is what `str::len` counts.
pub open spec fn utf8_len(s: Seq<char>) -> nat {
    encode_utf8(s).len()
}

/// Why a raw id is refused, if it is: an id is non-empty and at most ten
/// characters long, matching the schema's `varchar(10)` id columns.
pub open spec fn id_rejection(s: Seq<char>) -> Option<Seq<char>> {
    if s.len() == 0 {
        Some("empty"@)
    } else if s.len() > 10 {
        Some("longer than 10 characters"@)
    } else {
        None
    }
}

/// The text is acceptable as a catalog id.
pub open spec fn valid_id_text(s: Seq<char>) -> bool {
    id_rejection(s) is None
}

/// A raw id that failed validation, with the reason.
#[derive(Debug)]
pub struct InvalidId {
    reason: &'static str,
}

impl View for InvalidId {
    type V = Seq<char>;

    /// The reason, as text.
    closed spec fn view(&self) -> Seq<char> {
        self.reason@
    }
}

impl InvalidId {
    /// Why the id was refused.
    pub fn reason(&self) -> (r: &'static str)
        ensures
            r@ == self@,
    {
        self.reason
    }

    /// The error message: `not a valid id: ` followed by the reason.
    pub fn message(&self) -> (r: String)
        ensures
            r@ == "not a valid id: "@ + self@,
    {
        let mut out = String::from_str("not a valid id: ");
        out.append(self.reason);
        out
    }
}

/// The outcome of checking a raw id.
pub closed spec fn id_check(s: Seq<char>) -> Result<(), InvalidId> {
    if s.len() == 0 {
        Err(InvalidId { reason: "empty" })
    } else if s.len() > 10 {
        Err(InvalidId { reason: "longer than 10 characters" })
    } else {
        Ok(())
    }
}

/// Checks a raw id: empty texts and texts longer than ten characters are
/// refused.
pub fn validate_id(raw: &str) -> (r: Result<(), InvalidId>)
    ensures
        match id_rejection(raw@) {
            Some(reason) => r matches Err(e) && e@ == reason,
            None => r is Ok,
        },
        r == id_check(raw@),
{
    if raw.is_empty() {
        return Err(InvalidId { reason: "empty" });
    }
    if raw.unicode_len() > 10 {
        return Err(InvalidId { reason: "longer than 10 characters" });
    }
    Ok(())
}

/// The id of a category.
#[derive(Debug)]
pub struct CategoryId(String);

/// The id of a product.
#[derive(Debug)]
pub struct ProductId(String);

/// The id of a purchasable item.
#[derive(Debug)]
pub struct ItemId(String);

impl View for CategoryId {
    type V = Seq<char>;

    closed spec fn view(&self) -> Seq<char> {
        self.0@
    }
}

impl View for ProductId {
    type V = Seq<char>;

    closed spec fn view(&self) -> Seq<char> {
        self.0@
    }
}

impl View for ItemId {
    type V = Seq<char>;

    closed spec fn view(&self) -> Seq<char> {
        self.0@
    }
}

impl CategoryId {
    #[verifier::type_invariant]
    spec fn well_formed(self) -> bool {
        valid_id_text(self.0@)
    }

    /// The id's text, which is always a valid id.
    pub fn as_str(&self) -> (r: &str)
        ensures
            r@ == self@,
            valid_id_text(r@),
    {
        proof { use_type_invariant(self); }
        self.0.as_str()
    }
}

impl ProductId {
    #[verifier::type_invariant]
    spec fn well_formed(self) -> bool {
        valid_id_text(self.0@)
    }

    /// The id's text, which is always a valid id.
    pub fn as_str(&self) -> (r: &str)
        ensures
            r@ == self@,
            valid_id_text(r@),
    {
        proof { use_type_invariant(self); }
        self.0.as_str()
    }
}

impl ItemId {
    #[verifier::type_invariant]
    spec fn well_formed(self) -> bool {
        valid_id_text(self.0@)
    }

    /// The id's text, which is always a valid id.
    pub fn as_str(&self) -> (r: &str)
        ensures
            r@ == self@,
            valid_id_text(r@),
    {
        proof { use_type_invariant(self); }
        self.0.as_str()
    }

    /// Whether two item ids name the same item.
    pub fn same(&self, other: &ItemId) -> (r: bool)
        ensures
            r == (self@ == other@),
    {
        self == other
    }
}

impl Clone for CategoryId {
    fn clone(&self) -> (r: Self)
        ensures
            r@ == self@,
    {
        proof { use_type_invariant(self); }
        CategoryId(self.0.clone())
    }
}

impl Clone for ProductId {
    fn clone(&self) -> (r: Self)
        ensures
            r@ == self@,
    {
        proof { use_type_invariant(self); }
        ProductId(self.0.clone())
    }
}

impl Clone for ItemId {
    fn clone(&self) -> (r: Self)
        ensures
            r@ == self@,
    {
        proof { use_type_invariant(self); }
        ItemId(self.0.clone())
    }
}

impl PartialEq for CategoryId {
    fn eq(&self, other: &Self) -> (r: bool) {
        self.0 == other.0
    }
}

impl PartialEqSpecImpl for CategoryId {
    open spec fn obeys_eq_spec() -> bool {
        true
    }

    open spec fn eq_spec(&self, other: &Self) -> bool {
        self@ == other@
    }
}

impl Eq for CategoryId {

}

impl PartialEq for ProductId {
    fn eq(&self, other: &Self) -> (r: bool) {
        self.0 == other.0
    }
}

impl PartialEqSpecImpl for ProductId {
    open spec fn obeys_eq_spec() -> bool {
        true
    }

    open spec fn eq_spec(&self, other: &Self) -> bool {
        self@ == other@
    }
}

impl Eq for ProductId {

}

impl PartialEq for ItemId {
    fn eq(&self, other: &Self) -> (r: bool) {
        self.0 == other.0
    }
}

impl PartialEqSpecImpl for ItemId {
    open spec fn obeys_eq_spec() -> bool {
        true
    }

    open spec fn eq_spec(&self, other: &Self) -> bool {
        self@ == other@
    }
}

impl Eq for ItemId {

}

impl TryFrom<String> for CategoryId {
    type Error = InvalidId;

    /// Parses a raw id; see `id_rejection` for what is refused.
    fn try_from(raw: String) -> (r: Result<Self, InvalidId>)
        ensures
            match id_rejection(raw@) {
                Some(reason) => r matches Err(e) && e@ == reason,
                None => r matches Ok(id) && id@ == raw@,
            },
    {
        match validate_id(raw.as_str()) {
            Ok(()) => Ok(CategoryId(raw)),
            Err(e) => Err(e),
        }
    }
}

impl vstd::std_specs::convert::TryFromSpecImpl<String> for CategoryId {
    open spec fn obeys_try_from_spec() -> bool {
        true
    }

    closed spec fn try_from_spec(v: String) -> Result<Self, InvalidId> {
        match id_check(v@) {
            Ok(()) => Ok(CategoryId(v)),
            Err(e) => Err(e),
        }
    }
}

impl TryFrom<String> for ProductId {
    type Error = InvalidId;

    /// Parses a raw id; see `id_rejection` for what is refused.
    fn try_from(raw: String) -> (r: Result<Self, InvalidId>)
        ensures
            match id_rejection(raw@) {
                Some(reason) => r matches Err(e) && e@ == reason,
                None => r matches Ok(id) && id@ == raw@,
            },
    {
        match validate_id(raw.as_str()) {
            Ok(()) => Ok(ProductId(raw)),
            Err(e) => Err(e),
        }
    }
}

impl vstd::std_specs::convert::TryFromSpecImpl<String> for ProductId {
    open spec fn obeys_try_from_spec() -> bool {
        true
    }

    closed spec fn try_from_spec(v: String) -> Result<Self, InvalidId> {
        match id_check(v@) {
            Ok(()) => Ok(ProductId(v)),
            Err(e) => Err(e),
        }
    }
}

impl TryFrom<String> for ItemId {
    type Error = InvalidId;

    /// Parses a raw id; see `id_rejection` for what is refused.
    fn try_from(raw: String) -> (r: Result<Self, InvalidId>)
        ensures
            match id_rejection(raw@) {
                Some(reason) => r matches Err(e) && e@ == reason,
                None => r matches Ok(id) && id@ == raw@,
            },
    {
        match validate_id(raw.as_str()) {
            Ok(()) => Ok(ItemId(raw)),
            Err(e) => Err(e),
        }
    }
}

impl vstd::std_specs::convert::TryFromSpecImpl<String> for ItemId {
    open spec fn obeys_try_from_spec() -> bool {
        true
    }

    closed spec fn try_from_spec(v: String) -> Result<Self, InvalidId> {
        match id_check(v@) {
            Ok(()) => Ok(ItemId(v)),
            Err(e) => Err(e),
        }
    }
}

/// Money as integer cents.
#[derive(Debug, Clone, Copy, PartialEq, Eq, PartialOrd, Ord, Structural)]
pub struct Cents(pub i64);

/// `v / 100` rounded toward zero, as Rust's `/` on integers does.
pub open spec fn whole_dollars(v: int) -> int {
    if v >= 0 {
        v / 100
    } else {
        -((-v) / 100)
    }
}

/// `v % 100` with the sign of `v`, as Rust's `%` on integers does.
pub open spec fn cents_part(v: int) -> int {
    v - 100 * whole_dollars(v)
}

/// An integer printed with `{:02}`: zero-padded to two places when it is a
/// single non-negative digit, as `{}` prints it otherwise.
pub open spec fn two_places(v: int) -> Seq<char> {
    if 0 <= v < 10 {
        seq!['0', digit_char(v as nat)]
    } else {
        signed_decimal(v)
    }
}

/// How an amount of cents reads as dollars: `$`, the whole dollars, `.`,
/// and the cents in two places ("$16.50").
pub open spec fn dollars_text(v: int) -> Seq<char> {
    seq!['$'] + signed_decimal(whole_dollars(v)) + seq!['.'] + two_places(cents_part(v))
}

impl Cents {
    /// A unit price scaled by a quantity; the product saturates at the
    /// bounds of `i64` instead of overflowing.
    pub fn times(self, quantity: u32) -> (r: Cents)
        ensures
            r.0 == saturate(self.0 * quantity),
    {
        let q = quantity as i64;
        match self.0.checked_mul(q) {
            Some(p) => Cents(p),
            None => {
                if self.0 < 0 {
                    assert(self.0 * q < i64_min()) by (nonlinear_arith)
                        requires
                            self.0 < 0,
                            q >= 0,
                            self.0 * q > i64_max() || self.0 * q < i64_min(),
                    ;
                    Cents(i64::MIN)
                } else {
                    assert(self.0 * q > i64_max()) by (nonlinear_arith)
                        requires
                            self.0 >= 0,
                            q >= 0,
                            self.0 * q > i64_max() || self.0 * q < i64_min(),
                    ;
                    Cents(i64::MAX)
                }
            },
        }
    }

    /// Two amounts added, saturating at the bounds of `i64`.
    pub fn saturating_add(self, other: Cents) -> (r: Cents)
        ensures
            r.0 == saturate(self.0 + other.0),
    {
        match self.0.checked_add(other.0) {
            Some(s) => Cents(s),
            None => {
                if self.0 < 0 {
                    Cents(i64::MIN)
                } else {
                    Cents(i64::MAX)
                }
            },
        }
    }

    /// The amount as dollars, the way a price is shown: "$16.50".
    pub fn to_string(&self) -> (r: String)
        ensures
            r@ == dollars_text(self.0 as int),
    {
        let v = self.0;
        let negative = v < 0;
        let magnitude: u64 = if negative {
            ((-(v + 1)) as u64) + 1
        } else {
            v as u64
        };
        let whole: u64 = magnitude / 100;
        let part: u64 = magnitude % 100;
        proof {
            assert(magnitude as int == if v >= 0 { v as int } else { -v });
            assert(whole_dollars(v as int) == if negative { -(whole as int) } else { whole as int });
            assert(magnitude as int == 100 * (whole as int) + part as int);
            assert(cents_part(v as int) == if negative { -(part as int) } else { part as int });
        }
        let mut out = String::from_str("$");
        proof { reveal_strlit("$"); }
        if negative && whole > 0 {
            out.append("-");
            proof { reveal_strlit("-"); }
        }
        push_decimal(&mut out, whole);
        assert(out@ =~= seq!['$'] + signed_decimal(whole_dollars(v as int)));
        let ghost head = out@;
        out.append(".");
        proof { reveal_strlit("."); }
        let ghost tail: Seq<char>;
        if negative && part > 0 {
            out.append("-");
            proof { reveal_strlit("-"); }
            push_decimal(&mut out, part);
            proof {
                tail = seq!['-'] + decimal(part as nat);
                assert(two_places(cents_part(v as int)) == tail);
            }
        } else {
            if part < 10 {
                out.append("0");
                proof { reveal_strlit("0"); }
            }
            push_decimal(&mut out, part);
            proof {
                if part < 10 {
                    tail = seq!['0'] + decimal(part as nat);
                    assert(decimal(part as nat) == seq![digit_char(part as nat)]);
                    assert(tail =~= seq!['0', digit_char(part as nat)]);
                } else {
                    tail = decimal(part as nat);
                }
                assert(two_places(cents_part(v as int)) == tail);
            }
        }
        assert(out@ =~= head + seq!['.'] + tail);
        out
    }
}

/// The opening of a legacy image tag, up to the file name.
pub open spec fn image_open() -> Seq<char> {
    "<image src=\"../images/"@
}

/// What closes the file name of a legacy image tag.
pub open spec fn image_close() -> Seq<char> {
    "\">"@
}

/// A legacy description split into the image file name it names (if a
/// complete image tag is present) and the markup after that tag (the whole
/// description otherwise).
pub open spec fn split_legacy(d: Seq<char>) -> (Option<Seq<char>>, Seq<char>) {
    match first_occurrence(d, image_open()) {
        Some(start) => {
            let after = d.subrange(start + image_open().len(), d.len() as int);
            match first_occurrence(after, image_close()) {
                Some(end) => (
                    Some(after.subrange(0, end)),
                    after.subrange(end + image_close().len(), after.len() as int),
                ),
                None => (None, d),
            }
        },
        None => (None, d),
    }
}

/// The characters of `s` that lie outside tags: `<` opens a tag, `>`
/// closes one, and neither is kept. `in_tag` says whether `s` starts
/// inside a tag.
pub open spec fn strip_tags(s: Seq<char>, in_tag: bool) -> Seq<char>
    decreases s.len(),
{
    if s.len() == 0 {
        seq![]
    } else if s[0] == '<' {
        strip_tags(s.drop_first(), true)
    } else if s[0] == '>' {
        strip_tags(s.drop_first(), false)
    } else if in_tag {
        strip_tags(s.drop_first(), true)
    } else {
        seq![s[0]] + strip_tags(s.drop_first(), false)
    }
}

/// The plain text of a legacy description: the markup after the image tag
/// with every tag dropped and the white space at both ends cut.
pub open spec fn legacy_text(d: Seq<char>) -> Seq<char> {
    trimmed(strip_tags(split_legacy(d).1, false))
}

/// An optional string, by its characters.
pub open spec fn opt_text(o: Option<String>) -> Option<Seq<char>> {
    match o {
        Some(s) => Some(s@),
        None => None,
    }
}

/// What a legacy description string parses into.
pub struct Description {
    /// Image filename ("fish1.gif"), if the legacy markup carried one.
    pub image: Option<String>,
    pub text: String,
}

/// Drops every tag from `s` (see `strip_tags`).
fn strip_tags_from(s: &str) -> (r: String)
    ensures
        r@ == strip_tags(s@, false),
{
    let n = s.unicode_len();
    let mut text = String::new();
    let mut in_tag = false;
    let mut i: usize = 0;
    assert(s@.subrange(0, n as int) =~= s@);
    while i < n
        invariant
            n == s@.len(),
            i <= n,
            text@ + strip_tags(s@.subrange(i as int, n as int), in_tag) == strip_tags(s@, false),
        decreases n - i,
    {
        let c = s.get_char(i);
        let ghost rest = s@.subrange(i as int, n as int);
        assert(rest.drop_first() =~= s@.subrange(i + 1, n as int));
        assert(rest[0] == c);
        if c == '<' {
            in_tag = true;
        } else if c == '>' {
            in_tag = false;
        } else if !in_tag {
            let one = s.substring_char(i, i + 1);
            assert(one@ =~= seq![c]);
            let ghost before = text@;
            text.append(one);
            assert(before + strip_tags(rest, false) =~= text@ + strip_tags(rest.drop_first(), false));
        }
        i = i + 1;
    }
    assert(s@.subrange(n as int, n as int) =~= Seq::<char>::empty());
    assert(text@ + Seq::<char>::empty() =~= text@);
    text
}

/// Parses a legacy description: the image file named by an
/// `<image src="../images/...">` tag, and the remaining text with every tag
/// dropped and surrounding white space trimmed.
pub fn parse_legacy_description(descn: &str) -> (r: Description)
    ensures
        opt_text(r.image) == split_legacy(descn@).0,
        r.text@ == legacy_text(descn@),
{
    let n = descn.unicode_len();
    let open_tag = "<image src=\"../images/";
    let close_tag = "\">";
    let mut rest: &str = descn;
    let mut image: Option<String> = None;
    if let Some(start) = find(descn, open_tag) {
        let from = start + open_tag.unicode_len();
        let after = descn.substring_char(from, n);
        if let Some(end) = find(after, close_tag) {
            let close_len = close_tag.unicode_len();
            image = Some(after.substring_char(0, end).to_owned());
            rest = after.substring_char(end + close_len, after.unicode_len());
        }
    }
    assert(rest@ == split_legacy(descn@).1);
    let stripped = strip_tags_from(rest);
    let text = trim(stripped.as_str()).to_owned();
    Description { image, text }
}

/// Text without `<` or `>` loses nothing to tag stripping.
proof fn lemma_strip_plain(s: Seq<char>)
    requires
        forall|i: int| 0 <= i < s.len() ==> s[i] != '<' && s[i] != '>',
    ensures
        strip_tags(s, false) == s,
    decreases s.len(),
{
    if s.len() > 0 {
        assert forall|i: int| 0 <= i < s.drop_first().len() implies s.drop_first()[i] != '<'
            && s.drop_first()[i] != '>' by {
            assert(s.drop_first()[i] == s[i + 1]);
        }
        lemma_strip_plain(s.drop_first());
        assert(seq![s[0]] + s.drop_first() =~= s);
    }
}

/// Plain text passes through untouched: a description with no `<` or `>`
/// and no white space at either end names no image and parses to itself.
pub proof fn law_plain_text_passes_through(s: Seq<char>)
    requires
        forall|i: int| 0 <= i < s.len() ==> s[i] != '<' && s[i] != '>',
        trimmed(s) == s,
    ensures
        split_legacy(s).0 is None,
        legacy_text(s) == s,
{
    reveal_strlit("<image src=\"../images/");
    assert forall|i: int| !occurs_at(s, image_open(), i) by {
        if occurs_at(s, image_open(), i) {
            assert(s.subrange(i, i + image_open().len())[0] == s[i]);
            assert(image_open()[0] == '<');
        }
    }
    lemma_strip_plain(s);
}

pub struct Category {
    pub id: CategoryId,
    pub name: String,
    pub description: String,
}

pub struct Product {
    pub id: ProductId,
    pub category_id: CategoryId,
    pub name: String,
    pub description: String,
}

impl Product {
    /// The product's legacy description, parsed into parts.
    pub fn description_parts(&self) -> (r: Description)
        ensures
            opt_text(r.image) == split_legacy(self.description@).0,
            r.text@ == legacy_text(self.description@),
    {
        parse_legacy_description(self.description.as_str())
    }
}

/// A purchasable item, joined with its live inventory count.
pub struct Item {
    pub id: ItemId,
    pub product_id: ProductId,
    pub list_price: Cents,
    pub attribute: Option<String>,
    pub quantity: i64,
}

} // verus!
