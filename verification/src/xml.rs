use vstd::prelude::*;
use crate::PipelineError;

verus! {

/// One node of a parsed XML document, flattened to exactly what the resolver
/// reads: the node's local tag name (empty for non-element nodes) and its
/// text content, kept in document (pre-order) position.
#[derive(Debug)]
pub struct XmlNode {
    pub name: String,
    pub text: Option<String>,
}

/// The mathematical model of one flattened node: local name and text content.
pub type XmlNodeModel = (Seq<char>, Option<Seq<char>>);

pub open spec fn node_model(e: XmlNode) -> XmlNodeModel {
    (e.name@, match e.text {
        Some(t) => Some(t@),
        None => None,
    })
}

pub open spec fn nodes_model(v: Seq<XmlNode>) -> Seq<XmlNodeModel> {
    v.map_values(|e: XmlNode| node_model(e))
}

/// What roxmltree's parser yields for a given input text: `None` where the
/// parser refuses the text, otherwise every descendant node of the document
/// in pre-order, each as (local tag name, text content). Parsing is a
/// function of the input text alone.
pub uninterp spec fn xml_descendants(text: Seq<char>) -> Option<Seq<XmlNodeModel>>;

/// Relies on roxmltree::Document::parse, Document::descendants,
/// Node::tag_name and Node::text: parsing fails exactly where roxmltree's
/// default options refuse the text (text that is not well-formed XML, and a
/// few well-formed shapes they exclude, such as a document with a DTD), and
/// the descendant walk visits every node in document order, handing out its
/// local tag name (empty for non-element nodes) and its text content.
#[verifier::external_body]
fn parse_descendants(text: &str) -> (r: Option<Vec<XmlNode>>)
    ensures
        r is Some <==> xml_descendants(text@) is Some,
        r matches Some(v) ==> nodes_model(v@) == xml_descendants(text@).unwrap(),
{
    match roxmltree::Document::parse(text) {
        Ok(doc) => Some(
            doc.descendants()
                .map(|n| XmlNode {
                    name: n.tag_name().name().to_string(),
                    text: n.text().map(|t| t.to_string()),
                })
                .collect(),
        ),
        Err(_) => None,
    }
}

/// The text of the first node whose local name equals `name`: `None` where no
/// node matches, or where the first matching node carries no text. Later
/// matches are never consulted; callers must treat that as a deliberate
/// simplification, not as disambiguation of duplicate results.
pub open spec fn first_text(ns: Seq<XmlNodeModel>, name: Seq<char>) -> Option<Seq<char>>
    decreases ns.len(),
{
    if ns.len() == 0 {
        None
    } else if ns[0].0 == name {
        ns[0].1
    } else {
        first_text(ns.drop_first(), name)
    }
}

proof fn lemma_first_text_skip(ns: Seq<XmlNodeModel>, name: Seq<char>, i: int)
    requires
        0 <= i < ns.len(),
        ns[i].0 != name,
    ensures
        first_text(ns.skip(i), name) == first_text(ns.skip(i + 1), name),
{
    assert(ns.skip(i).len() > 0);
    assert(ns.skip(i)[0] == ns[i]);
    assert(ns.skip(i).drop_first() =~= ns.skip(i + 1));
}

/// Where a node sequence holds exactly one node named `name`, the first-match
/// walk returns exactly that node's text.
pub proof fn lemma_first_text_unique(ns: Seq<XmlNodeModel>, name: Seq<char>, i: int)
    requires
        0 <= i < ns.len(),
        ns[i].0 == name,
        forall|j: int| 0 <= j < ns.len() && j != i ==> (#[trigger] ns[j]).0 != name,
    ensures
        first_text(ns, name) == ns[i].1,
    decreases i,
{
    if i == 0 {
        assert(first_text(ns, name) == ns[0].1);
    } else {
        assert(ns[0].0 != name);
        let tail = ns.drop_first();
        assert(forall|j: int| 0 <= j < tail.len() ==> #[trigger] tail[j] == ns[j + 1]);
        lemma_first_text_unique(tail, name, i - 1);
        assert(tail[i - 1] == ns[i]);
    }
}

/// Where no node of the sequence is named `name`, the first-match walk
/// returns nothing.
pub proof fn lemma_first_text_absent(ns: Seq<XmlNodeModel>, name: Seq<char>)
    requires
        forall|j: int| 0 <= j < ns.len() ==> (#[trigger] ns[j]).0 != name,
    ensures
        first_text(ns, name) is None,
    decreases ns.len(),
{
    if ns.len() > 0 {
        let tail = ns.drop_first();
        assert(forall|j: int| 0 <= j < tail.len() ==> #[trigger] tail[j] == ns[j + 1]);
        lemma_first_text_absent(tail, name);
    }
}

/// A well-formed response in which no node is named `href` resolves to
/// `NotFound`.
pub proof fn lemma_resolve_no_match(text: Seq<char>)
    requires
        xml_descendants(text) is Some,
        ({
            let ns = xml_descendants(text).unwrap();
            forall|j: int| 0 <= j < ns.len() ==> (#[trigger] ns[j]).0 != "href"@
        }),
    ensures
        spec_resolve(text) == Err::<(Seq<char>, Seq<char>), PipelineError>(PipelineError::NotFound),
{
    lemma_first_text_absent(xml_descendants(text).unwrap(), "href"@);
}

/// The text of the first node of `nodes` whose name equals `name`, as
/// `first_text` states it.
pub fn find_first_text(nodes: &Vec<XmlNode>, name: &String) -> (r: Option<String>)
    ensures
        r is Some <==> first_text(nodes_model(nodes@), name@) is Some,
        r matches Some(s) ==> Some(s@) == first_text(nodes_model(nodes@), name@),
{
    let ghost ns = nodes_model(nodes@);
    let n = nodes.len();
    let mut i: usize = 0;
    proof {
        assert(ns.skip(0) =~= ns);
    }
    while i < n
        invariant
            n == nodes.len(),
            ns == nodes_model(nodes@),
            0 <= i <= n,
            first_text(ns, name@) == first_text(ns.skip(i as int), name@),
        decreases n - i,
    {
        if nodes[i].name == *name {
            proof {
                assert(ns.skip(i as int)[0] == ns[i as int]);
                assert(ns[i as int] == node_model(nodes@[i as int]));
            }
            return match &nodes[i].text {
                Some(t) => Some(t.clone()),
                None => None,
            };
        }
        proof {
            assert(ns[i as int] == node_model(nodes@[i as int]));
            lemma_first_text_skip(ns, name@, i as int);
        }
        i += 1;
    }
    proof {
        assert(ns.skip(n as int) =~= Seq::<XmlNodeModel>::empty());
    }
    None
}

/// The file's server-relative download path and its display name, as one
/// search response yields them. Lives only within one pipeline run.
#[derive(Debug)]
pub struct SearchResult {
    pub download_path: String,
    pub display_name: String,
}

/// What resolving one search-response body yields: the first `href` text and
/// the first `displayname` text of the parsed document, or the error the
/// pipeline surfaces in their absence.
pub open spec fn spec_resolve(text: Seq<char>) -> Result<(Seq<char>, Seq<char>), PipelineError> {
    match xml_descendants(text) {
        None => Err(PipelineError::MalformedUpstreamResponse),
        Some(ns) => match first_text(ns, "href"@) {
            None => Err(PipelineError::NotFound),
            Some(h) => match first_text(ns, "displayname"@) {
                None => Err(PipelineError::NotFound),
                Some(d) => Ok((h, d)),
            },
        },
    }
}

/// Parses one search-response body and extracts the download path and the
/// display name, exactly as `spec_resolve` states it: a body the XML parser
/// refuses fails with `MalformedUpstreamResponse`, a missing `href` or
/// `displayname` (or one without text) fails with `NotFound`.
pub fn resolve_search_response(body: &str) -> (r: Result<SearchResult, PipelineError>)
    ensures
        r is Ok <==> spec_resolve(body@) is Ok,
        r matches Ok(sr) ==> spec_resolve(body@) matches Ok(p) && sr.download_path@ == p.0
            && sr.display_name@ == p.1,
        r matches Err(e) ==> spec_resolve(body@) matches Err(e2) && e == e2,
{
    let nodes = match parse_descendants(body) {
        None => {
            return Err(PipelineError::MalformedUpstreamResponse);
        },
        Some(v) => v,
    };
    let href_name: String = "href".to_owned();
    let path = match find_first_text(&nodes, &href_name) {
        None => {
            return Err(PipelineError::NotFound);
        },
        Some(p) => p,
    };
    let display_name_tag: String = "displayname".to_owned();
    let display = match find_first_text(&nodes, &display_name_tag) {
        None => {
            return Err(PipelineError::NotFound);
        },
        Some(d) => d,
    };
    Ok(SearchResult { download_path: path, display_name: display })
}

/// Where a well-formed response holds exactly one `href` node and exactly one
/// `displayname` node, each carrying text, resolution returns exactly that
/// pair.
pub proof fn lemma_resolve_unique_pair(text: Seq<char>, ih: int, id: int)
    requires
        xml_descendants(text) is Some,
        ({
            let ns = xml_descendants(text).unwrap();
            &&& 0 <= ih < ns.len()
            &&& ns[ih].0 == "href"@
            &&& ns[ih].1 is Some
            &&& 0 <= id < ns.len()
            &&& ns[id].0 == "displayname"@
            &&& ns[id].1 is Some
            &&& forall|j: int| 0 <= j < ns.len() && j != ih ==> (#[trigger] ns[j]).0 != "href"@
            &&& forall|j: int| 0 <= j < ns.len() && j != id ==> (#[trigger] ns[j]).0 != "displayname"@
        }),
    ensures
        ({
            let ns = xml_descendants(text).unwrap();
            spec_resolve(text) == Ok::<(Seq<char>, Seq<char>), PipelineError>(
                (ns[ih].1.unwrap(), ns[id].1.unwrap()),
            )
        }),
{
    let ns = xml_descendants(text).unwrap();
    lemma_first_text_unique(ns, "href"@, ih);
    lemma_first_text_unique(ns, "displayname"@, id);
}

} // verus!
