//! Reading the `Link` header of a response: which URL it names as the next
//! page and which as the previous one.

use vstd::prelude::*;
use crate::errors::MastodonError;
use crate::text::str_eq;
use crate::urls::{parse_url, url_parse};

verus! {

/// One link of a `Link` header: its target, and its relation types by name.
#[derive(Clone, Debug, PartialEq, Eq)]
pub struct LinkValue {
    /// The target of the link, as the header writes it between `<` and `>`.
    pub link: String,
    /// The names of the relation types of the `rel` parameter, if there is one.
    pub rel: Option<Vec<String>>,
}

/// What a `LinkValue` stands for.
pub struct LinkValueModel {
    pub link: Seq<char>,
    pub rel: Option<Seq<Seq<char>>>,
}

/// The texts of a list of names.
pub open spec fn names_view(names: Seq<String>) -> Seq<Seq<char>> {
    names.map_values(|n: String| n@)
}

/// The texts of a list of names that may be absent.
pub open spec fn rel_view(rel: Option<Vec<String>>) -> Option<Seq<Seq<char>>> {
    match rel {
        Some(names) => Some(names_view(names@)),
        None => None,
    }
}

impl View for LinkValue {
    type V = LinkValueModel;

    open spec fn view(&self) -> LinkValueModel {
        LinkValueModel {
            link: self.link@,
            rel: rel_view(self.rel),
        }
    }
}

/// What a list of `LinkValue` stands for.
pub open spec fn values_view(values: Seq<LinkValue>) -> Seq<LinkValueModel> {
    values.map_values(|v: LinkValue| v@)
}

/// The links of the `Link` header `raw`, in the order of the header, or `None`
/// where `raw` is no `Link` header.
pub uninterp spec fn link_header_values(raw: Seq<char>) -> Option<Seq<LinkValueModel>>;

/// Calls `hyper_old_types::header::parsing::from_raw_str` at the type `Link`,
/// then `Link::values`, `LinkValue::link` and `LinkValue::rel`: the links of
/// the header, which depend on its text alone. A relation type is handed on by
/// the name that its `Display` writes: `next` for `RelationType::Next`, `prev`
/// for `RelationType::Prev`, and so on for the registered ones; an extension
/// type by its own text.
#[verifier::external_body]
pub(crate) fn parse_link_header(raw: &str) -> (r: Result<Vec<LinkValue>, hyper_old_types::Error>)
    ensures
        match r {
            Ok(values) => link_header_values(raw@) == Some(values_view(values@)),
            Err(_) => link_header_values(raw@) is None,
        },
{
    let link: hyper_old_types::header::Link = hyper_old_types::header::parsing::from_raw_str(
        raw.as_bytes(),
    )?;
    Ok(link.values().iter().map(|v| LinkValue {
        link: v.link().to_string(),
        rel: v.rel().map(|names| names.iter().map(|n| n.to_string()).collect()),
    }).collect())
}

/// Whether the relation types `rel` hold the one named `name`.
pub open spec fn names_relation(rel: Option<Seq<Seq<char>>>, name: Seq<char>) -> bool {
    rel matches Some(names) && names.contains(name)
}

/// The pair of URLs, previous first and next second, that is left when the
/// link `v` is read after the pair `links` was found, given what the target of
/// `v` parses to. A link that names neither relation changes nothing; one that
/// names either and whose target is no URL leaves no pair.
pub open spec fn with_link(
    links: (Option<Seq<char>>, Option<Seq<char>>),
    v: LinkValueModel,
    parsed: Option<Seq<char>>,
) -> Option<(Option<Seq<char>>, Option<Seq<char>>)> {
    let is_next = names_relation(v.rel, "next"@);
    let is_prev = names_relation(v.rel, "prev"@);
    if !is_next && !is_prev {
        Some(links)
    } else if parsed is None {
        None
    } else {
        Some((if is_prev { parsed } else { links.0 }, if is_next { parsed } else { links.1 }))
    }
}

/// The pair of URLs, previous first and next second, that the links `values`
/// name: for each direction the target of the last link with that relation.
/// `None` where a link with either relation has a target that is no URL.
pub open spec fn links_of(values: Seq<LinkValueModel>) -> Option<(Option<Seq<char>>, Option<Seq<char>>)>
    decreases values.len(),
{
    if values.len() == 0 {
        Some((None, None))
    } else {
        match links_of(values.drop_last()) {
            None => None,
            Some(links) => with_link(links, values.last(), url_parse(values.last().link)),
        }
    }
}

/// What a header, present or absent, says of the two directions. An absent
/// header names no page; so does a header without either relation.
pub open spec fn get_links_spec(header: Option<Seq<char>>) -> Option<(Option<Seq<char>>, Option<Seq<char>>)> {
    match header {
        None => Some((None, None)),
        Some(raw) => match link_header_values(raw) {
            None => None,
            Some(values) => links_of(values),
        },
    }
}

/// Whether `e` is the error that the header calls for. A header that is no
/// `Link` header fails as such; a header whose link to the next or to the
/// previous page has a target that is no URL fails for that URL. No other
/// header fails.
pub open spec fn header_error(header: Option<Seq<char>>, e: MastodonError) -> bool {
    match header {
        None => false,
        Some(raw) => match link_header_values(raw) {
            None => e is HeaderParseError,
            Some(values) => links_of(values) is None && e is Url,
        },
    }
}

/// The text of a header that may be absent.
pub open spec fn header_view(header: Option<&str>) -> Option<Seq<char>> {
    match header {
        Some(raw) => Some(raw@),
        None => None,
    }
}

/// The texts of a pair of optional strings.
pub open spec fn pair_view(links: (Option<String>, Option<String>)) -> (Option<Seq<char>>, Option<Seq<char>>) {
    (
        match links.0 {
            Some(u) => Some(u@),
            None => None,
        },
        match links.1 {
            Some(u) => Some(u@),
            None => None,
        },
    )
}

/// Whether `names` holds a relation type named `name`.
pub fn has_relation(names: &Option<Vec<String>>, name: &str) -> (r: bool)
    ensures
        r == names_relation(rel_view(*names), name@),
{
    match names {
        None => false,
        Some(list) => {
            let ghost texts = names_view(list@);
            let mut i: usize = 0;
            while i < list.len()
                invariant
                    i <= list.len(),
                    texts == names_view(list@),
                    rel_view(*names) == Some(texts),
                    forall|j: int| 0 <= j < i ==> texts[j] != name@,
                decreases list.len() - i,
            {
                if str_eq(list[i].as_str(), name) {
                    proof {
                        assert(texts[i as int] == name@);
                        assert(texts.contains(name@));
                    }
                    return true;
                }
                i += 1;
            }
            false
        },
    }
}

/// Reads one link after the pair `links` was found: given whether the link
/// names the previous page, whether it names the next one, and what parsing its
/// target gave.
pub fn record_link(
    links: (Option<String>, Option<String>),
    is_prev: bool,
    is_next: bool,
    parsed: Result<String, url::ParseError>,
) -> (r: Result<(Option<String>, Option<String>), MastodonError>)
    ensures
        !is_prev && !is_next ==> r == Ok::<(Option<String>, Option<String>), MastodonError>(links),
        is_prev || is_next ==> match parsed {
            Err(e) => r == Err::<(Option<String>, Option<String>), MastodonError>(
                MastodonError::Url(e),
            ),
            Ok(url) => r matches Ok(found) && pair_view(found) == (
                if is_prev { Some(url@) } else { pair_view(links).0 },
                if is_next { Some(url@) } else { pair_view(links).1 },
            ),
        },
{
    if !is_prev && !is_next {
        return Ok(links);
    }
    match parsed {
        Err(e) => Err(MastodonError::Url(e)),
        Ok(url) => {
            let (prev, next) = links;
            let next = if is_next { Some(url.clone()) } else { next };
            let prev = if is_prev { Some(url) } else { prev };
            Ok((prev, next))
        },
    }
}

/// The pair of URLs, previous first and next second, that `values` name.
pub fn links_of_values(values: &Vec<LinkValue>) -> (r: Result<
    (Option<String>, Option<String>),
    MastodonError,
>)
    ensures
        match links_of(values_view(values@)) {
            Some(links) => r matches Ok(found) && pair_view(found) == links,
            None => r matches Err(MastodonError::Url(_)),
        },
{
    let ghost all = values_view(values@);
    let mut links: (Option<String>, Option<String>) = (None, None);
    let mut i: usize = 0;
    proof {
        assert(all.take(0) =~= Seq::<LinkValueModel>::empty());
    }
    while i < values.len()
        invariant
            i <= values.len(),
            all == values_view(values@),
            links_of(all.take(i as int)) == Some(pair_view(links)),
        decreases values.len() - i,
    {
        let v = &values[i];
        proof {
            assert(all.take(i + 1).drop_last() =~= all.take(i as int));
            assert(all.take(i + 1).last() == v@);
        }
        let is_next = has_relation(&v.rel, "next");
        let is_prev = has_relation(&v.rel, "prev");
        if is_next || is_prev {
            let parsed = parse_url(v.link.as_str());
            match record_link(links, is_prev, is_next, parsed) {
                Ok(found) => {
                    links = found;
                },
                Err(e) => {
                    proof {
                        lemma_links_of_fails_on(all, i + 1);
                    }
                    return Err(e);
                },
            }
        }
        i += 1;
    }
    proof {
        assert(all.take(values.len() as int) =~= all);
    }
    Ok(links)
}

/// Once the first `n` links name no pair, no longer list of them does.
pub proof fn lemma_links_of_fails_on(values: Seq<LinkValueModel>, n: int)
    requires
        0 <= n <= values.len(),
        links_of(values.take(n)) is None,
    ensures
        links_of(values) is None,
    decreases values.len() - n,
{
    if n < values.len() {
        assert(values.take(n + 1).drop_last() =~= values.take(n));
        lemma_links_of_fails_on(values, n + 1);
    } else {
        assert(values.take(n) =~= values);
    }
}

/// The URLs of the previous and of the next page, in that order, that the
/// `Link` header of a response names. Without a header there is neither. A
/// header that cannot be parsed, or that names either page by something that
/// is no URL, is an error.
pub fn get_links(link_header: Option<&str>) -> (r: Result<
    (Option<String>, Option<String>),
    MastodonError,
>)
    ensures
        match get_links_spec(header_view(link_header)) {
            Some(links) => r matches Ok(found) && pair_view(found) == links,
            None => r matches Err(e) && header_error(header_view(link_header), e),
        },
{
    match link_header {
        None => Ok((None, None)),
        Some(raw) => match parse_link_header(raw) {
            Err(e) => Err(MastodonError::HeaderParseError(e)),
            Ok(values) => links_of_values(&values),
        },
    }
}

/// Where the links name a pair, the next page is the target of the last link
/// whose relation is `next`, as the `url` crate writes it.
pub proof fn lemma_next_is_last_match(values: Seq<LinkValueModel>, i: int)
    requires
        links_of(values) is Some,
        0 <= i < values.len(),
        names_relation(values[i].rel, "next"@),
        forall|j: int| i < j < values.len() ==> !names_relation(#[trigger] values[j].rel, "next"@),
    ensures
        url_parse(values[i].link) is Some,
        links_of(values) matches Some(links) && links.1 == url_parse(values[i].link),
    decreases values.len(),
{
    let front = values.drop_last();
    if i < values.len() - 1 {
        assert(!names_relation(values[values.len() - 1].rel, "next"@));
        assert(front[i] == values[i]);
        assert forall|j: int| i < j < front.len() implies !names_relation(
            #[trigger] front[j].rel,
            "next"@,
        ) by {
            assert(front[j] == values[j]);
        }
        lemma_next_is_last_match(front, i);
    }
}

/// Where the links name a pair, the previous page is the target of the last
/// link whose relation is `prev`, as the `url` crate writes it.
pub proof fn lemma_prev_is_last_match(values: Seq<LinkValueModel>, i: int)
    requires
        links_of(values) is Some,
        0 <= i < values.len(),
        names_relation(values[i].rel, "prev"@),
        forall|j: int| i < j < values.len() ==> !names_relation(#[trigger] values[j].rel, "prev"@),
    ensures
        url_parse(values[i].link) is Some,
        links_of(values) matches Some(links) && links.0 == url_parse(values[i].link),
    decreases values.len(),
{
    let front = values.drop_last();
    if i < values.len() - 1 {
        assert(!names_relation(values[values.len() - 1].rel, "prev"@));
        assert(front[i] == values[i]);
        assert forall|j: int| i < j < front.len() implies !names_relation(
            #[trigger] front[j].rel,
            "prev"@,
        ) by {
            assert(front[j] == values[j]);
        }
        lemma_prev_is_last_match(front, i);
    }
}

/// Links of which none has the relation `next` or `prev` name no page, whatever
/// their targets are.
pub proof fn lemma_other_relations_are_ignored(values: Seq<LinkValueModel>)
    requires
        forall|j: int|
            0 <= j < values.len() ==> !names_relation(#[trigger] values[j].rel, "next"@)
                && !names_relation(values[j].rel, "prev"@),
    ensures
        links_of(values) == Some((None::<Seq<char>>, None::<Seq<char>>)),
    decreases values.len(),
{
    if values.len() > 0 {
        let front = values.drop_last();
        assert forall|j: int| 0 <= j < front.len() implies !names_relation(
            #[trigger] front[j].rel,
            "next"@,
        ) && !names_relation(front[j].rel, "prev"@) by {
            assert(front[j] == values[j]);
        }
        lemma_other_relations_are_ignored(front);
        assert(!names_relation(values[values.len() - 1].rel, "next"@));
    }
}

/// A link with the relation `next` or `prev` whose target is no URL fails the
/// whole header.
pub proof fn lemma_bad_url_fails(values: Seq<LinkValueModel>, i: int)
    requires
        0 <= i < values.len(),
        names_relation(values[i].rel, "next"@) || names_relation(values[i].rel, "prev"@),
        url_parse(values[i].link) is None,
    ensures
        links_of(values) is None,
{
    assert(values.take(i + 1).drop_last() =~= values.take(i));
    assert(values.take(i + 1).last() == values[i]);
    lemma_links_of_fails_on(values, i + 1);
}

/// A header with one link for the next page and one for the previous page, in
/// either order, names exactly the URLs of those two links.
pub proof fn lemma_next_and_prev(next: LinkValueModel, prev: LinkValueModel)
    requires
        names_relation(next.rel, "next"@),
        !names_relation(next.rel, "prev"@),
        names_relation(prev.rel, "prev"@),
        !names_relation(prev.rel, "next"@),
        url_parse(next.link) is Some,
        url_parse(prev.link) is Some,
    ensures
        links_of(seq![next, prev]) == Some((url_parse(prev.link), url_parse(next.link))),
        links_of(seq![prev, next]) == Some((url_parse(prev.link), url_parse(next.link))),
{
    let a = seq![next, prev];
    let b = seq![prev, next];
    assert(a.drop_last() =~= seq![next]);
    assert(b.drop_last() =~= seq![prev]);
    assert(seq![next].drop_last() =~= Seq::<LinkValueModel>::empty());
    assert(seq![prev].drop_last() =~= Seq::<LinkValueModel>::empty());
    assert(links_of(Seq::<LinkValueModel>::empty()) == Some((None::<Seq<char>>, None::<Seq<char>>)));
    assert(seq![next].last() == next);
    assert(seq![prev].last() == prev);
    assert(a.last() == prev);
    assert(b.last() == next);
    assert(links_of(seq![next]) == Some((None::<Seq<char>>, url_parse(next.link))));
    assert(links_of(seq![prev]) == Some((url_parse(prev.link), None::<Seq<char>>)));
}

} // verus!
