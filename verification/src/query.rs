//! The query builder: a structured set of query options rendered into the
//! provider's query string. Pure and fully verified; the exact characters
//! of the result are pinned down by `spec_query_string`.

use vstd::prelude::*;
use vstd::string::*;

use crate::config::ProductType;
use crate::strutil::{join_all, spec_dec_digits, spec_joined, u64_to_dec};

verus! {

broadcast use vstd::string::group_string_axioms;

/// Query options for OData requests. All fields are independent; the
/// cross-company flag is meaningful only for the on-premises (Finance &
/// Operations) variant. Values are passed through verbatim: callers
/// pre-escape free-text filter expressions.
#[derive(Debug, Clone)]
pub struct QueryOptions {
    pub select: Option<Vec<String>>,
    pub filter: Option<String>,
    pub top: Option<usize>,
    pub skip: Option<usize>,
    pub orderby: Option<String>,
    pub expand: Option<Vec<String>>,
    /// F&O only: ask for results across all companies.
    pub cross_company: bool,
    /// Ask for an inline total count in the response.
    pub count: bool,
}

impl Default for QueryOptions {
    fn default() -> (r: Self)
        ensures
            r.select is None,
            r.filter is None,
            r.top is None,
            r.skip is None,
            r.orderby is None,
            r.expand is None,
            !r.cross_company,
            !r.count,
    {
        QueryOptions {
            select: None,
            filter: None,
            top: None,
            skip: None,
            orderby: None,
            expand: None,
            cross_company: false,
            count: false,
        }
    }
}

/// A parameter list holding `text` when `present`, and nothing otherwise.
pub open spec fn spec_opt_param(present: bool, text: Seq<char>) -> Seq<Seq<char>> {
    if present {
        seq![text]
    } else {
        Seq::empty()
    }
}

/// The parameters a set of options emits, in their fixed order. Only the
/// parameters actually set appear; `cross-company=true` appears only when
/// asked for and the variant is the on-premises one.
pub open spec fn spec_query_params(o: QueryOptions, p: ProductType) -> Seq<Seq<char>> {
    spec_opt_param(
        o.select is Some,
        "$select="@ + spec_joined(o.select.unwrap().deep_view(), ","@),
    ) + spec_opt_param(o.filter is Some, "$filter="@ + o.filter.unwrap()@) + spec_opt_param(
        o.top is Some,
        "$top="@ + spec_dec_digits(o.top.unwrap() as int),
    ) + spec_opt_param(o.skip is Some, "$skip="@ + spec_dec_digits(o.skip.unwrap() as int))
        + spec_opt_param(o.orderby is Some, "$orderby="@ + o.orderby.unwrap()@) + spec_opt_param(
        o.expand is Some,
        "$expand="@ + spec_joined(o.expand.unwrap().deep_view(), ","@),
    ) + spec_opt_param(o.count, "$count=true"@) + spec_opt_param(
        o.cross_company && p == ProductType::Finops,
        "cross-company=true"@,
    )
}

/// The query string for a set of options: empty when no parameter is set,
/// else `?` followed by the parameters joined with `&`.
pub open spec fn spec_query_string(o: QueryOptions, p: ProductType) -> Seq<char> {
    let params = spec_query_params(o, p);
    if params.len() == 0 {
        Seq::empty()
    } else {
        "?"@ + spec_joined(params, "&"@)
    }
}

fn push_param(params: &mut Vec<String>, part: String)
    ensures
        final(params).deep_view() == old(params).deep_view() + seq![part@],
{
    let ghost before = params.deep_view();
    params.push(part);
    proof {
        assert(params.deep_view() =~= before + seq![part@]);
    }
}

impl QueryOptions {
    /// The parameters the options emit, in their fixed order.
    pub fn query_params(&self, product: &ProductType) -> (r: Vec<String>)
        ensures
            r.deep_view() == spec_query_params(*self, *product),
    {
        let mut params: Vec<String> = Vec::new();
        proof {
            assert(params.deep_view() =~= Seq::<Seq<char>>::empty());
        }
        let ghost c0 = params.deep_view();
        if let Some(sel) = &self.select {
            let mut part = "$select=".to_owned();
            part.append(join_all(sel, ",").as_str());
            push_param(&mut params, part);
        }
        proof {
            lemma_param_step(c0, params.deep_view(), self.select is Some,
                "$select="@ + spec_joined(self.select.unwrap().deep_view(), ","@));
        }
        let ghost c1 = params.deep_view();
        if let Some(filter) = &self.filter {
            let mut part = "$filter=".to_owned();
            part.append(filter.as_str());
            push_param(&mut params, part);
        }
        proof {
            lemma_param_step(c1, params.deep_view(), self.filter is Some,
                "$filter="@ + self.filter.unwrap()@);
        }
        let ghost c2 = params.deep_view();
        if let Some(top) = self.top {
            let mut part = "$top=".to_owned();
            part.append(u64_to_dec(top as u64).as_str());
            push_param(&mut params, part);
        }
        proof {
            lemma_param_step(c2, params.deep_view(), self.top is Some,
                "$top="@ + spec_dec_digits(self.top.unwrap() as int));
        }
        let ghost c3 = params.deep_view();
        if let Some(skip) = self.skip {
            let mut part = "$skip=".to_owned();
            part.append(u64_to_dec(skip as u64).as_str());
            push_param(&mut params, part);
        }
        proof {
            lemma_param_step(c3, params.deep_view(), self.skip is Some,
                "$skip="@ + spec_dec_digits(self.skip.unwrap() as int));
        }
        let ghost c4 = params.deep_view();
        if let Some(orderby) = &self.orderby {
            let mut part = "$orderby=".to_owned();
            part.append(orderby.as_str());
            push_param(&mut params, part);
        }
        proof {
            lemma_param_step(c4, params.deep_view(), self.orderby is Some,
                "$orderby="@ + self.orderby.unwrap()@);
        }
        let ghost c5 = params.deep_view();
        if let Some(exp) = &self.expand {
            let mut part = "$expand=".to_owned();
            part.append(join_all(exp, ",").as_str());
            push_param(&mut params, part);
        }
        proof {
            lemma_param_step(c5, params.deep_view(), self.expand is Some,
                "$expand="@ + spec_joined(self.expand.unwrap().deep_view(), ","@));
        }
        let ghost c6 = params.deep_view();
        if self.count {
            push_param(&mut params, "$count=true".to_owned());
        }
        proof {
            lemma_param_step(c6, params.deep_view(), self.count, "$count=true"@);
        }
        let ghost c7 = params.deep_view();
        if self.cross_company && *product == ProductType::Finops {
            push_param(&mut params, "cross-company=true".to_owned());
        }
        proof {
            lemma_param_step(c7, params.deep_view(),
                self.cross_company && *product == ProductType::Finops, "cross-company=true"@);
            assert(c0 == Seq::<Seq<char>>::empty());
            lemma_empty_concat(spec_query_params(*self, *product));
        }
        params
    }

    /// Build the query string from the options.
    pub fn to_query_string(&self, product: &ProductType) -> (r: String)
        ensures
            r@ == spec_query_string(*self, *product),
    {
        let params = self.query_params(product);
        if params.len() == 0 {
            String::new()
        } else {
            let mut out = "?".to_owned();
            out.append(join_all(&params, "&").as_str());
            out
        }
    }
}

/// A step of parameter building: what stood before, followed by the
/// optional parameter, is what stands after.
proof fn lemma_param_step(before: Seq<Seq<char>>, after: Seq<Seq<char>>, present: bool, text: Seq<char>)
    requires
        present ==> after == before + seq![text],
        !present ==> after == before,
    ensures
        after == before + spec_opt_param(present, text),
{
    if !present {
        assert(before + spec_opt_param(present, text) =~= before);
    }
}

proof fn lemma_empty_concat(s: Seq<Seq<char>>)
    ensures
        Seq::<Seq<char>>::empty() + s == s,
{
    assert(Seq::<Seq<char>>::empty() + s =~= s);
}

/// The cross-company flag is variant-gated: for the cloud variant it is
/// ignored outright — the parameters are those of the same options with
/// the flag off — while for the on-premises variant a set flag appends
/// exactly one `cross-company=true` parameter at the end, and a clear
/// flag appends nothing.
pub proof fn lemma_cross_company_gating(o: QueryOptions, o_off: QueryOptions)
    requires
        o_off == (QueryOptions { cross_company: false, ..o }),
    ensures
        spec_query_params(o, ProductType::Dataverse) == spec_query_params(
            o_off,
            ProductType::Dataverse,
        ),
        o.cross_company ==> spec_query_params(o, ProductType::Finops) == spec_query_params(
            o_off,
            ProductType::Finops,
        ).push("cross-company=true"@),
        !o.cross_company ==> spec_query_params(o, ProductType::Finops) == spec_query_params(
            o_off,
            ProductType::Finops,
        ),
{
    assert(spec_query_params(o, ProductType::Dataverse) =~= spec_query_params(
        o_off,
        ProductType::Dataverse,
    ));
    if o.cross_company {
        assert(spec_query_params(o, ProductType::Finops) =~= spec_query_params(
            o_off,
            ProductType::Finops,
        ).push("cross-company=true"@));
    } else {
        assert(spec_query_params(o, ProductType::Finops) =~= spec_query_params(
            o_off,
            ProductType::Finops,
        ));
    }
}

} // verus!
