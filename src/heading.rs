//! Document headings: the outline of a page, as extracted by the in-page
//! script, and the request that scrolls back to one of its entries.
use vstd::prelude::*;
use vstd::string::StrSliceExecFns;

verus! {

/// The level of a heading element, `h1` to `h6`.
#[derive(Clone, Copy, Debug, PartialEq, Eq, Structural)]
pub enum TagKind {
    H1,
    H2,
    H3,
    H4,
    H5,
    H6,
}

impl TagKind {
    /// Display indentation: 0 for `h1` up to 5 for `h6`.
    pub open spec fn level(self) -> nat {
        match self {
            TagKind::H1 => 0,
            TagKind::H2 => 1,
            TagKind::H3 => 2,
            TagKind::H4 => 3,
            TagKind::H5 => 4,
            TagKind::H6 => 5,
        }
    }

    pub fn indent_level(&self) -> (r: usize)
        ensures
            r == self.level(),
    {
        match self {
            TagKind::H1 => 0,
            TagKind::H2 => 1,
            TagKind::H3 => 2,
            TagKind::H4 => 3,
            TagKind::H5 => 4,
            TagKind::H6 => 5,
        }
    }
}

/// The level named by a digit character, if it is one of `1` to `6`.
pub open spec fn tag_of_digit(d: char) -> Option<TagKind> {
    if d == '1' {
        Some(TagKind::H1)
    } else if d == '2' {
        Some(TagKind::H2)
    } else if d == '3' {
        Some(TagKind::H3)
    } else if d == '4' {
        Some(TagKind::H4)
    } else if d == '5' {
        Some(TagKind::H5)
    } else if d == '6' {
        Some(TagKind::H6)
    } else {
        None
    }
}

/// The level named by an element's tag name: `h1` to `h6`, in either case.
pub open spec fn tag_of_name(name: Seq<char>) -> Option<TagKind> {
    if name.len() == 2 && (name[0] == 'h' || name[0] == 'H') {
        tag_of_digit(name[1])
    } else {
        None
    }
}

pub fn parse_tag_name(name: &str) -> (r: Option<TagKind>)
    ensures
        r == tag_of_name(name@),
{
    if name.unicode_len() != 2 {
        return None;
    }
    let h = name.get_char(0);
    if h != 'h' && h != 'H' {
        return None;
    }
    let d = name.get_char(1);
    if d == '1' {
        Some(TagKind::H1)
    } else if d == '2' {
        Some(TagKind::H2)
    } else if d == '3' {
        Some(TagKind::H3)
    } else if d == '4' {
        Some(TagKind::H4)
    } else if d == '5' {
        Some(TagKind::H5)
    } else if d == '6' {
        Some(TagKind::H6)
    } else {
        None
    }
}

/// One heading of a page's outline.
///
/// `index` is the heading's position among all headings of the page;
/// `dom_id` is the element's id attribute, absent when the element has none.
/// When scrolling, the id identifies the heading if present, else the index.
#[derive(Clone, Debug)]
pub struct HeadingNode {
    pub tag: TagKind,
    pub text: String,
    pub index: usize,
    pub dom_id: Option<String>,
}

pub fn copy_opt_string(s: &Option<String>) -> (r: Option<String>)
    ensures
        r == *s,
{
    match s {
        Some(x) => Some(x.clone()),
        None => None,
    }
}

impl HeadingNode {
    /// Display indentation of this heading, 0 to 5.
    pub fn indent_levels(&self) -> (r: usize)
        ensures
            r == self.tag.level(),
    {
        self.tag.indent_level()
    }

    /// A copy equal to this node in every field.
    pub fn duplicate(&self) -> (r: HeadingNode)
        ensures
            r == *self,
    {
        HeadingNode {
            tag: self.tag,
            text: self.text.clone(),
            index: self.index,
            dom_id: copy_opt_string(&self.dom_id),
        }
    }
}

/// A copy of an outline, equal to it entry by entry.
pub fn copy_outline(o: &Vec<HeadingNode>) -> (r: Vec<HeadingNode>)
    ensures
        r@ == o@,
{
    let mut r: Vec<HeadingNode> = Vec::new();
    let mut i: usize = 0;
    while i < o.len()
        invariant
            i <= o@.len(),
            r@ == o@.subrange(0, i as int),
        decreases o@.len() - i,
    {
        r.push(o[i].duplicate());
        i = i + 1;
    }
    assert(r@ =~= o@);
    r
}

/// The entries of an outline that may be absent.
pub open spec fn outline_view(o: Option<Vec<HeadingNode>>) -> Option<Seq<HeadingNode>> {
    match o {
        Some(v) => Some(v@),
        None => None,
    }
}

/// A copy of an outline that may be absent.
pub fn copy_opt_outline(o: &Option<Vec<HeadingNode>>) -> (r: Option<Vec<HeadingNode>>)
    ensures
        outline_view(r) == outline_view(*o),
{
    match o {
        Some(v) => Some(copy_outline(v)),
        None => None,
    }
}

/// One heading as the extraction script reports it: the element's tag name,
/// its rendered text, its position, and its id attribute (empty or null when
/// the element has none).
#[derive(Clone, Debug)]
pub struct RawHeading {
    pub tag_name: String,
    pub inner_text: String,
    pub index: u64,
    pub id: Option<String>,
}

/// Why a reported heading list is not a well-formed outline.
#[derive(Clone, Copy, Debug, PartialEq, Eq, Structural)]
pub enum OutlineError {
    /// The entry at this position does not name a heading element `h1`..`h6`.
    UnknownTag { position: usize },
    /// The entry at this position reports an index other than its position.
    IndexMismatch { position: usize },
}

/// An id attribute that is absent or empty identifies nothing.
pub open spec fn dom_id_of(id: Option<String>) -> Option<String> {
    match id {
        Some(s) => if s@.len() == 0 { None } else { Some(s) },
        None => None,
    }
}

pub fn normalize_dom_id(id: Option<String>) -> (r: Option<String>)
    ensures
        r == dom_id_of(id),
{
    match id {
        Some(s) => if s.unicode_len() == 0 { None } else { Some(s) },
        None => None,
    }
}

/// What is wrong with the entry at position `i`, if anything.
pub open spec fn entry_fault(raw: RawHeading, i: int) -> Option<OutlineError> {
    if tag_of_name(raw.tag_name@) is None {
        Some(OutlineError::UnknownTag { position: i as usize })
    } else if raw.index != i {
        Some(OutlineError::IndexMismatch { position: i as usize })
    } else {
        None
    }
}

/// The outline entry that a well-formed reported entry stands for.
pub open spec fn node_of(raw: RawHeading) -> HeadingNode {
    HeadingNode {
        tag: tag_of_name(raw.tag_name@)->0,
        text: raw.inner_text,
        index: raw.index as usize,
        dom_id: dom_id_of(raw.id),
    }
}

/// A reported heading list is well-formed when every entry names a heading
/// element and reports its own position as its index.
pub open spec fn well_formed_prefix(raw: Seq<RawHeading>, n: int) -> bool {
    forall|j: int| 0 <= j < n ==> #[trigger] entry_fault(raw[j], j) is None
}

pub open spec fn well_formed(raw: Seq<RawHeading>) -> bool {
    well_formed_prefix(raw, raw.len() as int)
}

/// Turns the extraction script's report into an outline.
///
/// The outline keeps the report's order, one node per entry; an empty id
/// becomes an absent one. A report with a faulty entry is refused with the
/// fault of the first such entry.
pub fn outline_from_raw(raw: &Vec<RawHeading>) -> (r: Result<Vec<HeadingNode>, OutlineError>)
    ensures
        r is Ok <==> well_formed(raw@),
        r is Ok ==> r->Ok_0@ == raw@.map_values(|h: RawHeading| node_of(h)),
        r is Err ==> exists|k: int|
            0 <= k < raw@.len() && well_formed_prefix(raw@, k) && entry_fault(raw@[k], k)
                == Some(r->Err_0),
{
    let mut out: Vec<HeadingNode> = Vec::new();
    let mut i: usize = 0;
    while i < raw.len()
        invariant
            i <= raw@.len(),
            well_formed_prefix(raw@, i as int),
            out@ == raw@.subrange(0, i as int).map_values(|h: RawHeading| node_of(h)),
        decreases raw@.len() - i,
    {
        let h = &raw[i];
        match parse_tag_name(h.tag_name.as_str()) {
            None => {
                assert(entry_fault(raw@[i as int], i as int) is Some);
                return Err(OutlineError::UnknownTag { position: i });
            },
            Some(t) => {
                if h.index != i as u64 {
                    assert(entry_fault(raw@[i as int], i as int) is Some);
                    return Err(OutlineError::IndexMismatch { position: i });
                }
                let node = HeadingNode {
                    tag: t,
                    text: h.inner_text.clone(),
                    index: i,
                    dom_id: normalize_dom_id(copy_opt_string(&h.id)),
                };
                out.push(node);
                i = i + 1;
                assert(raw@.subrange(0, i as int) =~= raw@.subrange(0, i - 1).push(raw@[i - 1]));
                assert(entry_fault(raw@[i - 1], i - 1) is None);
            },
        }
    }
    assert(raw@.subrange(0, raw@.len() as int) =~= raw@);
    Ok(out)
}

/// The arguments of the scroll script: the heading's position and its id,
/// the empty string standing for "no id".
#[derive(Clone, Debug)]
pub struct ScrollRequest {
    pub index: u64,
    pub id: String,
}

impl ScrollRequest {
    /// The scroll script locates the element by id exactly when an id is
    /// given; otherwise it indexes into the headings stashed at extraction.
    pub open spec fn locates_by_id(self) -> bool {
        self.id@.len() > 0
    }
}

/// The scroll script's arguments for a heading.
pub fn scroll_request(node: &HeadingNode) -> (r: ScrollRequest)
    ensures
        r.index == node.index,
        r.id@ == match node.dom_id {
            Some(s) => s@,
            None => Seq::<char>::empty(),
        },
        node.dom_id is Some && node.dom_id->0@.len() > 0 ==> r.locates_by_id() && r.id@
            == node.dom_id->0@,
{
    let id = match &node.dom_id {
        Some(s) => s.clone(),
        None => String::new(),
    };
    ScrollRequest { index: node.index as u64, id }
}

} // verus!
