//! Line items of a track event: building them from property bags, and their
//! compact positional encoding (`pr1=id..~nm..~k0..~v0..`).

use crate::escape::{join_strings, join_with, url_encode, url_escape};
use crate::event::Dict;
use crate::properties::{normalized_key, normalize_key, opt_view, pairs_view, PairsView};
use crate::text::{append_decimal, decimal, push_char, str_eq};
use vstd::prelude::*;

verus! {

/// Most items one event carries; items after these are dropped.
pub const MAX_ITEMS: usize = 200;

/// One line item. Known fields are set from the item's properties; every
/// other property is kept, in order, as a custom parameter.
pub struct Product {
    pub sku: Option<String>,
    pub name: Option<String>,
    pub affiliation: Option<String>,
    pub coupon: Option<String>,
    pub discount: Option<String>,
    pub index: Option<String>,
    pub brand: Option<String>,
    pub category: Option<String>,
    pub category2: Option<String>,
    pub category3: Option<String>,
    pub category4: Option<String>,
    pub category5: Option<String>,
    pub list_id: Option<String>,
    pub list_name: Option<String>,
    pub variant: Option<String>,
    pub location_id: Option<String>,
    pub price: Option<String>,
    pub quantity: Option<String>,
    pub custom_parameters: Option<Vec<(String, String)>>,
}

pub struct ProductView {
    pub sku: Option<Seq<char>>,
    pub name: Option<Seq<char>>,
    pub affiliation: Option<Seq<char>>,
    pub coupon: Option<Seq<char>>,
    pub discount: Option<Seq<char>>,
    pub index: Option<Seq<char>>,
    pub brand: Option<Seq<char>>,
    pub category: Option<Seq<char>>,
    pub category2: Option<Seq<char>>,
    pub category3: Option<Seq<char>>,
    pub category4: Option<Seq<char>>,
    pub category5: Option<Seq<char>>,
    pub list_id: Option<Seq<char>>,
    pub list_name: Option<Seq<char>>,
    pub variant: Option<Seq<char>>,
    pub location_id: Option<Seq<char>>,
    pub price: Option<Seq<char>>,
    pub quantity: Option<Seq<char>>,
    pub custom: PairsView,
}

impl View for Product {
    type V = ProductView;

    open spec fn view(&self) -> ProductView {
        ProductView {
            sku: opt_view(self.sku),
            name: opt_view(self.name),
            affiliation: opt_view(self.affiliation),
            coupon: opt_view(self.coupon),
            discount: opt_view(self.discount),
            index: opt_view(self.index),
            brand: opt_view(self.brand),
            category: opt_view(self.category),
            category2: opt_view(self.category2),
            category3: opt_view(self.category3),
            category4: opt_view(self.category4),
            category5: opt_view(self.category5),
            list_id: opt_view(self.list_id),
            list_name: opt_view(self.list_name),
            variant: opt_view(self.variant),
            location_id: opt_view(self.location_id),
            price: opt_view(self.price),
            quantity: opt_view(self.quantity),
            custom: match self.custom_parameters {
                Some(c) => pairs_view(c@),
                None => Seq::empty(),
            },
        }
    }
}

pub open spec fn empty_product() -> ProductView {
    ProductView {
        sku: None,
        name: None,
        affiliation: None,
        coupon: None,
        discount: None,
        index: None,
        brand: None,
        category: None,
        category2: None,
        category3: None,
        category4: None,
        category5: None,
        list_id: None,
        list_name: None,
        variant: None,
        location_id: None,
        price: None,
        quantity: None,
        custom: Seq::empty(),
    }
}

impl Default for Product {
    fn default() -> (r: Product)
        ensures
            r@ == empty_product(),
            r.custom_parameters is None,
    {
        Product {
            sku: None,
            name: None,
            affiliation: None,
            coupon: None,
            discount: None,
            index: None,
            brand: None,
            category: None,
            category2: None,
            category3: None,
            category4: None,
            category5: None,
            list_id: None,
            list_name: None,
            variant: None,
            location_id: None,
            price: None,
            quantity: None,
            custom_parameters: None,
        }
    }
}

/// One property applied to an item: a known key sets its field, any other
/// key is appended to the custom parameters.
pub open spec fn apply_product_field(p: ProductView, k: Seq<char>, v: Seq<char>) -> ProductView {
    if k == "sku"@ {
        ProductView { sku: Some(v), ..p }
    } else if k == "name"@ {
        ProductView { name: Some(v), ..p }
    } else if k == "affiliation"@ {
        ProductView { affiliation: Some(v), ..p }
    } else if k == "coupon"@ {
        ProductView { coupon: Some(v), ..p }
    } else if k == "discount"@ {
        ProductView { discount: Some(v), ..p }
    } else if k == "index"@ {
        ProductView { index: Some(v), ..p }
    } else if k == "brand"@ {
        ProductView { brand: Some(v), ..p }
    } else if k == "category"@ {
        ProductView { category: Some(v), ..p }
    } else if k == "category2"@ {
        ProductView { category2: Some(v), ..p }
    } else if k == "category3"@ {
        ProductView { category3: Some(v), ..p }
    } else if k == "category4"@ {
        ProductView { category4: Some(v), ..p }
    } else if k == "category5"@ {
        ProductView { category5: Some(v), ..p }
    } else if k == "list_id"@ {
        ProductView { list_id: Some(v), ..p }
    } else if k == "list_name"@ {
        ProductView { list_name: Some(v), ..p }
    } else if k == "variant"@ {
        ProductView { variant: Some(v), ..p }
    } else if k == "location_id"@ {
        ProductView { location_id: Some(v), ..p }
    } else if k == "price"@ {
        ProductView { price: Some(v), ..p }
    } else if k == "quantity"@ {
        ProductView { quantity: Some(v), ..p }
    } else {
        ProductView { custom: p.custom.push((k, v)), ..p }
    }
}

/// The item built from a property bag, keys normalised, in order.
pub open spec fn product_of(bag: PairsView) -> ProductView
    decreases bag.len(),
{
    if bag.len() == 0 {
        empty_product()
    } else {
        apply_product_field(product_of(bag.drop_last()), normalize_key(bag.last().0), bag.last().1)
    }
}

/// Builds an item from its properties: keys with spaces replaced by
/// underscores, known keys to their fields, other keys to the custom
/// parameters, which stay absent when there are none.
pub fn product_from_properties(bag: &Dict) -> (r: Product)
    ensures
        r@ == product_of(pairs_view(bag@)),
        r.custom_parameters is Some <==> r@.custom.len() > 0,
{
    let ghost bv = pairs_view(bag@);
    let mut p = Product::default();
    let mut custom: Vec<(String, String)> = Vec::new();
    let mut i: usize = 0;
    proof {
        assert(pairs_view(custom@) =~= Seq::empty());
        assert(bv.take(0) =~= Seq::empty());
        assert((ProductView { custom: pairs_view(custom@), ..p@ }) == p@);
    }
    while i < bag.len()
        invariant
            bv == pairs_view(bag@),
            i <= bag@.len(),
            p.custom_parameters is None,
            (ProductView { custom: pairs_view(custom@), ..p@ }) == product_of(bv.take(i as int)),
        decreases bag@.len() - i,
    {
        proof {
            assert(bv.take(i + 1).drop_last() =~= bv.take(i as int));
        }
        let k = normalized_key(bag[i].0.as_str());
        let v = bag[i].1.clone();
        
        if str_eq(k.as_str(), "sku") {
            p.sku = Some(v);
        } else if str_eq(k.as_str(), "name") {
            p.name = Some(v);
        } else if str_eq(k.as_str(), "affiliation") {
            p.affiliation = Some(v);
        } else if str_eq(k.as_str(), "coupon") {
            p.coupon = Some(v);
        } else if str_eq(k.as_str(), "discount") {
            p.discount = Some(v);
        } else if str_eq(k.as_str(), "index") {
            p.index = Some(v);
        } else if str_eq(k.as_str(), "brand") {
            p.brand = Some(v);
        } else if str_eq(k.as_str(), "category") {
            p.category = Some(v);
        } else if str_eq(k.as_str(), "category2") {
            p.category2 = Some(v);
        } else if str_eq(k.as_str(), "category3") {
            p.category3 = Some(v);
        } else if str_eq(k.as_str(), "category4") {
            p.category4 = Some(v);
        } else if str_eq(k.as_str(), "category5") {
            p.category5 = Some(v);
        } else if str_eq(k.as_str(), "list_id") {
            p.list_id = Some(v);
        } else if str_eq(k.as_str(), "list_name") {
            p.list_name = Some(v);
        } else if str_eq(k.as_str(), "variant") {
            p.variant = Some(v);
        } else if str_eq(k.as_str(), "location_id") {
            p.location_id = Some(v);
        } else if str_eq(k.as_str(), "price") {
            p.price = Some(v);
        } else if str_eq(k.as_str(), "quantity") {
            p.quantity = Some(v);
        } else {
            let ghost before = pairs_view(custom@);
            let ghost kv = (k@, v@);
            custom.push((k, v));
            proof {
                assert(pairs_view(custom@) =~= before.push(kv));
            }
        }
        i = i + 1;
    }
    proof {
        assert(bv.take(i as int) =~= bv);
    }
    let ghost target = ProductView { custom: pairs_view(custom@), ..p@ };
    if custom.len() > 0 {
        p.custom_parameters = Some(custom);
        assert(p@ == target);
    } else {
        assert(pairs_view(custom@) =~= Seq::empty());
        assert(p@ == target);
    }
    p
}

/// A segment `prefix value` when the field is set.
pub open spec fn opt_segment(prefix: Seq<char>, v: Option<Seq<char>>) -> Seq<Seq<char>> {
    match v {
        Some(x) => seq![prefix + x],
        None => Seq::empty(),
    }
}

/// Custom parameters as alternating `k{n}{key}` and `v{n}{value}` segments,
/// numbered from 0.
pub open spec fn custom_segments(c: PairsView) -> Seq<Seq<char>>
    decreases c.len(),
{
    if c.len() == 0 {
        Seq::empty()
    } else {
        let n = (c.len() - 1) as nat;
        custom_segments(c.drop_last()) + seq![
            seq!['k'] + decimal(n) + c.last().0,
            seq!['v'] + decimal(n) + c.last().1,
        ]
    }
}

/// The segments of an item in the fixed field order, then its custom
/// parameters.
pub open spec fn product_segments(p: ProductView) -> Seq<Seq<char>> {
    opt_segment("id"@, p.sku)
        + opt_segment("nm"@, p.name)
        + opt_segment("br"@, p.brand)
        + opt_segment("ca"@, p.category)
        + opt_segment("pr"@, p.price)
        + opt_segment("af"@, p.affiliation)
        + opt_segment("cp"@, p.coupon)
        + opt_segment("ds"@, p.discount)
        + opt_segment("lp"@, p.index)
        + opt_segment("c2"@, p.category2)
        + opt_segment("c3"@, p.category3)
        + opt_segment("c4"@, p.category4)
        + opt_segment("c5"@, p.category5)
        + opt_segment("li"@, p.list_id)
        + opt_segment("ln"@, p.list_name)
        + opt_segment("va"@, p.variant)
        + opt_segment("lo"@, p.location_id)
        + opt_segment("qt"@, p.quantity)
        + custom_segments(p.custom)
}

pub open spec fn segments_view(v: Seq<String>) -> Seq<Seq<char>> {
    v.map_values(|s: String| s@)
}

fn push_segment(segs: &mut Vec<String>, prefix: &str, v: &Option<String>)
    ensures
        segments_view(final(segs)@) == segments_view(old(segs)@) + opt_segment(prefix@, opt_view(*v)),
{
    match v {
        Some(x) => {
            let mut s = prefix.to_string();
            s.append(x.as_str());
            segs.push(s);
            proof {
                assert(segments_view(segs@) =~= segments_view(old(segs)@) + opt_segment(prefix@, opt_view(*v)));
            }
        },
        None => {
            proof {
                assert(segments_view(segs@) =~= segments_view(old(segs)@) + opt_segment(prefix@, opt_view(*v)));
            }
        },
    }
}

fn push_custom_segments(segs: &mut Vec<String>, custom: &Option<Vec<(String, String)>>)
    ensures
        segments_view(final(segs)@) == segments_view(old(segs)@) + custom_segments(
            match *custom {
                Some(c) => pairs_view(c@),
                None => Seq::empty(),
            },
        ),
{
    match custom {
        Some(c) => {
            let ghost cv = pairs_view(c@);
            let ghost s0 = segments_view(segs@);
            let mut i: usize = 0;
            while i < c.len()
                invariant
                    cv == pairs_view(c@),
                    i <= c@.len(),
                    segments_view(segs@) == s0 + custom_segments(cv.take(i as int)),
                decreases c@.len() - i,
            {
                proof {
                    assert(cv.take(i + 1).drop_last() =~= cv.take(i as int));
                }
                let mut ks = String::new();
                push_char(&mut ks, 'k');
                append_decimal(&mut ks, i as u64);
                ks.append(c[i].0.as_str());
                let mut vs = String::new();
                push_char(&mut vs, 'v');
                append_decimal(&mut vs, i as u64);
                vs.append(c[i].1.as_str());
                let ghost before = segments_view(segs@);
                segs.push(ks);
                segs.push(vs);
                proof {
                    assert(ks@ =~= seq!['k'] + decimal(i as nat) + cv[i as int].0);
                    assert(vs@ =~= seq!['v'] + decimal(i as nat) + cv[i as int].1);
                    assert(segments_view(segs@) =~= before + seq![ks@, vs@]);
                    assert(s0 + custom_segments(cv.take(i + 1)) =~= s0 + custom_segments(cv.take(i as int)) + seq![ks@, vs@]);
                }
                i = i + 1;
            }
            proof {
                assert(cv.take(i as int) =~= cv);
            }
        },
        None => {
            proof {
                assert(segments_view(segs@) =~= segments_view(old(segs)@) + custom_segments(Seq::empty()));
            }
        },
    }
}

/// The segments of an item, as `product_segments` describes them.
pub fn product_segments_exec(p: &Product) -> (r: Vec<String>)
    ensures
        segments_view(r@) == product_segments(p@),
{
    let mut segs: Vec<String> = Vec::new();
    proof {
        assert(segments_view(segs@) =~= Seq::empty());
    }
    push_segment(&mut segs, "id", &p.sku);
    push_segment(&mut segs, "nm", &p.name);
    push_segment(&mut segs, "br", &p.brand);
    push_segment(&mut segs, "ca", &p.category);
    push_segment(&mut segs, "pr", &p.price);
    push_segment(&mut segs, "af", &p.affiliation);
    push_segment(&mut segs, "cp", &p.coupon);
    push_segment(&mut segs, "ds", &p.discount);
    push_segment(&mut segs, "lp", &p.index);
    push_segment(&mut segs, "c2", &p.category2);
    push_segment(&mut segs, "c3", &p.category3);
    push_segment(&mut segs, "c4", &p.category4);
    push_segment(&mut segs, "c5", &p.category5);
    push_segment(&mut segs, "li", &p.list_id);
    push_segment(&mut segs, "ln", &p.list_name);
    push_segment(&mut segs, "va", &p.variant);
    push_segment(&mut segs, "lo", &p.location_id);
    push_segment(&mut segs, "qt", &p.quantity);
    push_custom_segments(&mut segs, &p.custom_parameters);
    proof {
        assert(segments_view(segs@) =~= product_segments(p@));
    }
    segs
}

/// The encoded value of an item: its segments joined with `~`, URL-encoded.
pub open spec fn item_value(p: ProductView) -> Seq<char> {
    url_escape(join_with(product_segments(p), '~'))
}

/// The query parameter of the item at index `i`: `&pr{i+1}=` and its value.
pub open spec fn item_param(i: nat, p: ProductView) -> Seq<char> {
    seq!['&', 'p', 'r'] + decimal(i + 1) + seq!['='] + item_value(p)
}

/// The parameters of the items, in order.
pub open spec fn items_query(ps: Seq<ProductView>) -> Seq<char>
    decreases ps.len(),
{
    if ps.len() == 0 {
        Seq::empty()
    } else {
        items_query(ps.drop_last()) + item_param((ps.len() - 1) as nat, ps.last())
    }
}

pub open spec fn products_view(v: Seq<Product>) -> Seq<ProductView> {
    v.map_values(|p: Product| p@)
}

/// The items that are sent: the first `MAX_ITEMS` of them.
pub open spec fn sent_items(ps: Seq<ProductView>) -> Seq<ProductView> {
    if ps.len() > MAX_ITEMS {
        ps.take(MAX_ITEMS as int)
    } else {
        ps
    }
}

/// Encodes the items as `&pr1=..&pr2=..`, one parameter per item in order,
/// each value URL-encoded; items after the first `MAX_ITEMS` are dropped.
pub fn encode_items(items: &Vec<Product>) -> (r: String)
    ensures
        r@ == items_query(sent_items(products_view(items@))),
{
    let ghost all = products_view(items@);
    let ghost ps = sent_items(all);
    let n: usize = if items.len() > MAX_ITEMS {
        MAX_ITEMS
    } else {
        items.len()
    };
    let mut out = String::new();
    let mut i: usize = 0;
    proof {
        assert(out@ =~= items_query(ps.take(0)));
    }
    while i < n
        invariant
            all == products_view(items@),
            ps == sent_items(all),
            n == ps.len(),
            n <= items@.len(),
            n <= MAX_ITEMS,
            i <= n,
            out@ == items_query(ps.take(i as int)),
        decreases n - i,
    {
        proof {
            assert(ps.take(i + 1).drop_last() =~= ps.take(i as int));
            assert(ps[i as int] == items@[i as int]@);
        }
        let segs = product_segments_exec(&items[i]);
        let joined = join_strings(&segs, '~');
        let value = url_encode(joined.as_str());
        let ghost before = out@;
        push_char(&mut out, '&');
        push_char(&mut out, 'p');
        push_char(&mut out, 'r');
        append_decimal(&mut out, (i + 1) as u64);
        push_char(&mut out, '=');
        out.append(value.as_str());
        proof {
            assert(out@ =~= before + item_param(i as nat, ps[i as int]));
        }
        i = i + 1;
    }
    proof {
        assert(ps.take(n as int) =~= ps);
    }
    out
}

} // verus!
