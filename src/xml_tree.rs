use vstd::prelude::*;
use xml::Xml;

verus! {

broadcast use vstd::std_specs::vec::group_vec_axioms;

/// An attribute of an XML element: its name, its namespace if any, and its
/// value.
pub struct XmlAttribute {
    pub name: String,
    pub ns: Option<String>,
    pub value: String,
}

/// An XML element: name, namespace, attributes (each name and namespace at
/// most once) and child nodes in document order.
pub struct XmlElement {
    pub name: String,
    pub ns: Option<String>,
    pub attributes: Vec<XmlAttribute>,
    pub children: Vec<XmlNode>,
}

/// A child node of an XML element.
pub enum XmlNode {
    Element(XmlElement),
    Characters(String),
    CData(String),
    Comment(String),
    ProcessingInstruction(String),
}

/// What an XML element says, as mathematical values: attributes form a map
/// from (name, namespace) to value.
pub struct XmlTree {
    pub name: Seq<char>,
    pub ns: Option<Seq<char>>,
    pub attributes: Map<(Seq<char>, Option<Seq<char>>), Seq<char>>,
    pub children: Seq<XmlTreeNode>,
}

pub enum XmlTreeNode {
    Element(XmlTree),
    Characters(Seq<char>),
    CData(Seq<char>),
    Comment(Seq<char>),
    ProcessingInstruction(Seq<char>),
}

pub open spec fn string_view(s: Option<String>) -> Option<Seq<char>> {
    match s {
        Some(v) => Some(v@),
        None => None,
    }
}

/// The attributes of a list as a map; where a key repeats, the later one counts.
pub open spec fn attribute_map(v: Seq<XmlAttribute>) -> Map<(Seq<char>, Option<Seq<char>>), Seq<char>>
    decreases v.len(),
{
    if v.len() == 0 {
        Map::empty()
    } else {
        attribute_map(v.drop_last()).insert((v.last().name@, string_view(v.last().ns)), v.last().value@)
    }
}

/// What the `xml` crate's parser makes of the document `text`: its root
/// element, or `None` where the text is no well-formed document.
pub uninterp spec fn parsed_xml(text: Seq<char>) -> Option<XmlTree>;

/// A parsed XML element of the `xml` crate.
#[verifier::external_type_specification]
#[verifier::external_body]
pub struct ExElement(xml::Element);

/// How deeply elements may nest in a document that is parsed: the parser and
/// the conversion of its result recurse once per level.
pub const MAX_XML_DEPTH: i64 = 1000;

/// Where a scan of a document stands: `mode` is the kind of text the parser
/// is in (0 between tags, 1 after `<`, 2 in a tag name, 3 among attributes,
/// 4 in an attribute name, 5 before an attribute value, 6 in a value quoted
/// by `quote`, 7 after `/` in a start tag, 8 in an end-tag name, 9 after it,
/// 10 in a processing instruction, 11 in one after its first `?`, 12 after
/// `<!`, where every later `<` counts as an opening). `depth` bounds from
/// above how many elements are open, `run` is the current run of `]`.
pub struct XmlScan {
    pub mode: u8,
    pub quote: char,
    pub depth: i64,
    pub max_depth: i64,
    pub run: u64,
    pub max_run: u64,
}

pub open spec fn is_xml_space(c: char) -> bool {
    c == ' ' || c == '\t' || c == '\r' || c == '\n'
}

/// The mode after `c` in `mode`.
pub open spec fn scan_mode(mode: u8, quote: char, c: char) -> u8 {
    if mode == 0 {
        if c == '<' { 1 } else { 0 }
    } else if mode == 1 {
        if c == '?' { 10 } else if c == '!' { 12 } else if c == '/' { 8 } else { 2 }
    } else if mode == 2 || mode == 3 {
        if c == '/' { 7 } else if c == '>' { 0 } else if is_xml_space(c) { 3 } else if mode == 2 { 2 } else { 4 }
    } else if mode == 4 {
        if c == '=' { 5 } else { 4 }
    } else if mode == 5 {
        if c == '"' || c == '\'' { 6 } else { 5 }
    } else if mode == 6 {
        if c == quote { 3 } else { 6 }
    } else if mode == 7 {
        0
    } else if mode == 8 {
        if c == '>' { 0 } else if is_xml_space(c) { 9 } else { 8 }
    } else if mode == 9 {
        if c == '>' { 0 } else { 9 }
    } else if mode == 10 {
        if c == '?' { 11 } else { 10 }
    } else if mode == 11 {
        if c == '>' { 0 } else { 11 }
    } else {
        12
    }
}

/// How `c` in `mode` changes the count of open elements: an opening tag
/// counts at its first character, an end tag at its `/`, an empty-element
/// tag at its closing `>`.
pub open spec fn scan_depth_change(mode: u8, c: char) -> int {
    if mode == 1 {
        if c == '?' || c == '!' { 0 } else if c == '/' { -1 } else { 1 }
    } else if mode == 7 && c == '>' {
        -1
    } else if mode == 12 && c == '<' {
        1
    } else {
        0
    }
}

pub open spec fn scan_start() -> XmlScan {
    XmlScan { mode: 0, quote: ' ', depth: 0, max_depth: 0, run: 0, max_run: 0 }
}

pub open spec fn scan_step(s: XmlScan, c: char) -> XmlScan {
    let depth = s.depth + scan_depth_change(s.mode, c);
    let run = if c == ']' { s.run + 1 } else { 0 };
    XmlScan {
        mode: scan_mode(s.mode, s.quote, c),
        quote: if s.mode == 5 && (c == '"' || c == '\'') { c } else { s.quote },
        depth: depth as i64,
        max_depth: (if depth > s.max_depth { depth } else { s.max_depth as int }) as i64,
        run: run as u64,
        max_run: (if run > s.max_run { run } else { s.max_run as int }) as u64,
    }
}

/// The scan of the whole of `text`.
pub open spec fn scan_xml(text: Seq<char>) -> XmlScan
    decreases text.len(),
{
    if text.len() == 0 {
        scan_start()
    } else {
        scan_step(scan_xml(text.drop_last()), text.last())
    }
}

/// The documents that the parser is given: its line and column counters fit
/// in `u32`, no run of `]` reaches 256 (the parser counts one inside CDATA in
/// a `u8`), and elements nest at most `MAX_XML_DEPTH` deep.
pub open spec fn xml_parse_safe(text: Seq<char>) -> bool {
    &&& text.len() < u32::MAX
    &&& scan_xml(text).max_depth <= MAX_XML_DEPTH
    &&& scan_xml(text).max_run < 256
}

/// Every counter of a scan stays within the length scanned.
pub proof fn lemma_scan_bounds(text: Seq<char>)
    requires
        text.len() < u32::MAX,
    ensures
        -(text.len() as int) <= scan_xml(text).depth <= text.len(),
        0 <= scan_xml(text).max_depth <= text.len(),
        scan_xml(text).run <= text.len(),
        scan_xml(text).max_run <= text.len(),
        scan_xml(text).mode <= 12,
    decreases text.len(),
{
    if text.len() > 0 {
        lemma_scan_bounds(text.drop_last());
    }
}

fn scan_step_exec(s: &XmlScan, c: char) -> (r: XmlScan)
    requires
        s.mode <= 12,
        -0x1_0000_0000 <= s.depth <= 0x1_0000_0000,
        0 <= s.max_depth <= 0x1_0000_0000,
        s.run <= 0x1_0000_0000,
        s.max_run <= 0x1_0000_0000,
    ensures
        r == scan_step(*s, c),
{
    let space = c == ' ' || c == '\t' || c == '\r' || c == '\n';
    let m = s.mode;
    let mode: u8 = if m == 0 {
        if c == '<' { 1 } else { 0 }
    } else if m == 1 {
        if c == '?' { 10 } else if c == '!' { 12 } else if c == '/' { 8 } else { 2 }
    } else if m == 2 || m == 3 {
        if c == '/' { 7 } else if c == '>' { 0 } else if space { 3 } else if m == 2 { 2 } else { 4 }
    } else if m == 4 {
        if c == '=' { 5 } else { 4 }
    } else if m == 5 {
        if c == '"' || c == '\'' { 6 } else { 5 }
    } else if m == 6 {
        if c == s.quote { 3 } else { 6 }
    } else if m == 7 {
        0
    } else if m == 8 {
        if c == '>' { 0 } else if space { 9 } else { 8 }
    } else if m == 9 {
        if c == '>' { 0 } else { 9 }
    } else if m == 10 {
        if c == '?' { 11 } else { 10 }
    } else if m == 11 {
        if c == '>' { 0 } else { 11 }
    } else {
        12
    };
    let change: i64 = if m == 1 {
        if c == '?' || c == '!' { 0 } else if c == '/' { -1 } else { 1 }
    } else if m == 7 && c == '>' {
        -1
    } else if m == 12 && c == '<' {
        1
    } else {
        0
    };
    let depth = s.depth + change;
    let run: u64 = if c == ']' { s.run + 1 } else { 0 };
    XmlScan {
        mode,
        quote: if m == 5 && (c == '"' || c == '\'') { c } else { s.quote },
        depth,
        max_depth: if depth > s.max_depth { depth } else { s.max_depth },
        run,
        max_run: if run > s.max_run { run } else { s.max_run },
    }
}

/// Whether `text` is a document that the parser may be given.
pub fn xml_parse_is_safe(text: &str) -> (r: bool)
    ensures
        r == xml_parse_safe(text@),
{
    let n = text.unicode_len();
    if n >= 0xffff_ffff {
        return false;
    }
    let mut s = XmlScan { mode: 0, quote: ' ', depth: 0, max_depth: 0, run: 0, max_run: 0 };
    let mut i: usize = 0;
    while i < n
        invariant
            i <= n,
            n == text@.len(),
            n < u32::MAX,
            s == scan_xml(text@.subrange(0, i as int)),
        decreases n - i,
    {
        proof {
            lemma_scan_bounds(text@.subrange(0, i as int));
            assert(text@.subrange(0, i + 1).drop_last() == text@.subrange(0, i as int));
        }
        let c = text.get_char(i);
        s = scan_step_exec(&s, c);
        i = i + 1;
    }
    proof {
        assert(text@.subrange(0, n as int) == text@);
    }
    s.max_depth <= MAX_XML_DEPTH && s.max_run < 256
}

/// Relies on `<xml::Element as FromStr>::from_str`: the root element of the
/// document, which depends on the text alone (attribute order aside, which
/// the map of attributes does not keep).
#[verifier::external_body]
pub fn parse_xml(text: &str) -> (r: Option<XmlElement>)
    requires
        xml_parse_safe(text@),
    ensures
        r is None <==> parsed_xml(text@) is None,
        r is Some ==> parsed_xml(text@) == Some(r.unwrap().tree()),
{
    match text.parse::<xml::Element>() {
        Ok(root) => Some(element_model(&root)),
        Err(_) => None,
    }
}

/// Converts an element of the `xml` crate, field by field, into the
/// library's model (its namespace-prefix bookkeeping is not carried over).
#[verifier::external_body]
fn element_model(e: &xml::Element) -> XmlElement {
    XmlElement {
        name: e.name.clone(),
        ns: e.ns.clone(),
        attributes: e.attributes.iter().map(|((name, ns), value)| XmlAttribute {
            name: name.clone(), ns: ns.clone(), value: value.clone() }).collect(),
        children: e.children.iter().map(|child| match child {
            Xml::ElementNode(c) => XmlNode::Element(element_model(c)),
            Xml::CharacterNode(t) => XmlNode::Characters(t.clone()),
            Xml::CDATANode(t) => XmlNode::CData(t.clone()),
            Xml::CommentNode(t) => XmlNode::Comment(t.clone()),
            Xml::PINode(t) => XmlNode::ProcessingInstruction(t.clone()),
        }).collect(),
    }
}

/// Whether `n` is an element named `name` outside any namespace.
pub open spec fn is_element_named(n: XmlTreeNode, name: Seq<char>) -> bool {
    n is Element && n->Element_0.name == name && n->Element_0.ns is None
}

/// The elements among `s` named `name` outside any namespace, in order.
pub open spec fn elements_named(s: Seq<XmlTreeNode>, name: Seq<char>) -> Seq<XmlTree>
    decreases s.len(),
{
    if s.len() == 0 {
        Seq::empty()
    } else if is_element_named(s.last(), name) {
        elements_named(s.drop_last(), name).push(s.last()->Element_0)
    } else {
        elements_named(s.drop_last(), name)
    }
}

/// The first of the elements among `s` named `name`, if any.
pub open spec fn first_element_named(s: Seq<XmlTreeNode>, name: Seq<char>) -> Option<XmlTree> {
    if elements_named(s, name).len() > 0 {
        Some(elements_named(s, name)[0])
    } else {
        None
    }
}

/// The value of the attribute `name` of `t`, outside any namespace.
pub open spec fn attribute_of(t: XmlTree, name: Seq<char>) -> Option<Seq<char>> {
    if t.attributes.contains_key((name, None)) {
        Some(t.attributes[(name, None)])
    } else {
        None
    }
}

impl XmlElement {
    /// The child elements named `name`, outside any namespace, in order.
    pub fn children_named(&self, name: &str) -> (r: Vec<&XmlElement>)
        ensures
            r@.len() == elements_named(self.tree().children, name@).len(),
            forall|k: int|
                0 <= k < r@.len() ==> #[trigger] r@[k].tree() == elements_named(
                    self.tree().children,
                    name@,
                )[k],
    {
        let key: String = name.to_owned();
        let ghost nodes = self.tree().children;
        let mut r: Vec<&XmlElement> = Vec::new();
        let mut i: usize = 0;
        while i < self.children.len()
            invariant
                i <= self.children@.len(),
                nodes == self.tree().children,
                nodes.len() == self.children@.len(),
                key@ == name@,
                r@.len() == elements_named(nodes.subrange(0, i as int), name@).len(),
                forall|k: int|
                    0 <= k < r@.len() ==> #[trigger] r@[k].tree() == elements_named(
                        nodes.subrange(0, i as int),
                        name@,
                    )[k],
            decreases self.children@.len() - i,
        {
            let ghost before = nodes.subrange(0, i as int);
            let ghost after = nodes.subrange(0, i + 1);
            assert(after.drop_last() == before);
            assert(after.last() == self.children@[i as int].tree());
            match &self.children[i] {
                XmlNode::Element(e) => {
                    if e.ns.is_none() && e.name == key {
                        r.push(e);
                    }
                },
                _ => {},
            }
            i = i + 1;
        }
        assert(nodes.subrange(0, nodes.len() as int) == nodes);
        r
    }

    /// The first child element named `name`, outside any namespace.
    pub fn child(&self, name: &str) -> (r: Option<&XmlElement>)
        ensures
            r is None <==> first_element_named(self.tree().children, name@) is None,
            r is Some ==> first_element_named(self.tree().children, name@) == Some(
                r.unwrap().tree(),
            ),
    {
        let found = self.children_named(name);
        if found.len() > 0 {
            Some(found[0])
        } else {
            None
        }
    }

    /// The value of the attribute `name`, outside any namespace.
    pub fn attribute(&self, name: &str) -> (r: Option<String>)
        ensures
            string_view(r) == attribute_of(self.tree(), name@),
    {
        let key: String = name.to_owned();
        let ghost k = (name@, None::<Seq<char>>);
        let mut found: Option<usize> = None;
        let mut i: usize = 0;
        while i < self.attributes.len()
            invariant
                i <= self.attributes@.len(),
                key@ == name@,
                k == (name@, None::<Seq<char>>),
                found is None <==> !attribute_map(self.attributes@.subrange(0, i as int)).contains_key(k),
                found is Some ==> found.unwrap() < i && attribute_map(
                    self.attributes@.subrange(0, i as int),
                )[k] == self.attributes@[found.unwrap() as int].value@,
            decreases self.attributes@.len() - i,
        {
            let ghost after = self.attributes@.subrange(0, i + 1);
            assert(after.drop_last() == self.attributes@.subrange(0, i as int));
            let a = &self.attributes[i];
            if a.ns.is_none() && a.name == key {
                found = Some(i);
            }
            i = i + 1;
        }
        assert(self.attributes@.subrange(0, self.attributes@.len() as int) == self.attributes@);
        match found {
            Some(j) => Some(self.attributes[j].value.clone()),
            None => None,
        }
    }
}

impl XmlElement {
    pub open spec fn tree(self) -> XmlTree
        decreases self,
    {
        XmlTree {
            name: self.name@,
            ns: string_view(self.ns),
            attributes: attribute_map(self.attributes@),
            children: Seq::new(
                self.children@.len(),
                |i: int|
                    if 0 <= i < self.children@.len() {
                        self.children@[i].tree()
                    } else {
                        XmlTreeNode::Characters(Seq::empty())
                    },
            ),
        }
    }
}

impl XmlNode {
    pub open spec fn tree(self) -> XmlTreeNode
        decreases self,
    {
        match self {
            XmlNode::Element(e) => XmlTreeNode::Element(e.tree()),
            XmlNode::Characters(s) => XmlTreeNode::Characters(s@),
            XmlNode::CData(s) => XmlTreeNode::CData(s@),
            XmlNode::Comment(s) => XmlTreeNode::Comment(s@),
            XmlNode::ProcessingInstruction(s) => XmlTreeNode::ProcessingInstruction(s@),
        }
    }
}

} // verus!
