//! A tree of tagged nodes with attributes, and its markup text.
//!
//! `Tag` is the executable tree. Its view, `Element`, is the same tree over
//! mathematical sequences; what a tree is and how it is written out is stated
//! on `Element`.

use vstd::prelude::*;

verus! {

/// A name and a value, as they stand in an opening tag.
pub struct AttribModel {
    pub name: Seq<char>,
    pub val: Seq<char>,
}

/// A node of the document: a tag name, a text value, the attributes in the
/// order in which they were added (a name may occur twice) and the child
/// nodes in order.
pub struct Element {
    pub name: Seq<char>,
    pub value: Seq<char>,
    pub attribs: Seq<AttribModel>,
    pub children: Seq<Element>,
}

impl AttribModel {
    /// The text of one attribute: a space and the name, followed by `="value"`
    /// unless the value is empty.
    pub open spec fn text(self) -> Seq<char> {
        if self.val.len() == 0 {
            " "@ + self.name
        } else {
            " "@ + self.name + "=\""@ + self.val + "\""@
        }
    }
}

/// The texts of the attributes `attribs`, one after the other.
pub open spec fn attribs_text(attribs: Seq<AttribModel>) -> Seq<char>
    decreases attribs.len(),
{
    if attribs.len() == 0 {
        Seq::<char>::empty()
    } else {
        attribs_text(attribs.drop_last()) + attribs.last().text()
    }
}

impl Element {
    /// A node named `name` with no value, attributes or children.
    pub open spec fn new(name: Seq<char>) -> Element {
        Element {
            name,
            value: Seq::<char>::empty(),
            attribs: Seq::<AttribModel>::empty(),
            children: Seq::<Element>::empty(),
        }
    }

    /// This node with the attribute `name`, `val` added after the others.
    pub open spec fn attr(self, name: Seq<char>, val: Seq<char>) -> Element {
        Element { attribs: self.attribs.push(AttribModel { name, val }), ..self }
    }

    /// This node with `node` added as its last child.
    pub open spec fn child(self, node: Element) -> Element {
        Element { children: self.children.push(node), ..self }
    }

    /// This node with all of `nodes` added after its children.
    pub open spec fn with_children(self, nodes: Seq<Element>) -> Element {
        Element { children: self.children + nodes, ..self }
    }

    /// This node with its text value replaced by `value`.
    pub open spec fn text(self, value: Seq<char>) -> Element {
        Element { value, ..self }
    }

    /// The markup of this node, each of its lines starting with `indent`.
    ///
    /// A node with children is an opening tag on a line of its own (holding
    /// the value as a `value` attribute if there is one, then the
    /// attributes), the children one level deeper, and a closing tag on a
    /// line of its own. A node without children is a self-closing tag if its
    /// value is empty, and otherwise the opening tag, the value and the
    /// closing tag on one line.
    pub open spec fn render(self, indent: Seq<char>) -> Seq<char>
        decreases self, 1nat, 0nat,
    {
        if self.children.len() > 0 {
            indent + "<"@ + self.name + (if self.value.len() == 0 {
                Seq::<char>::empty()
            } else {
                " value=\""@ + self.value + "\""@
            }) + attribs_text(self.attribs) + ">\n"@ + self.render_children(
                indent + " "@,
                self.children.len(),
            ) + indent + "</"@ + self.name + ">\n"@
        } else if self.value.len() == 0 {
            indent + "<"@ + self.name + attribs_text(self.attribs) + "/>\n"@
        } else {
            indent + "<"@ + self.name + attribs_text(self.attribs) + ">"@ + self.value + "</"@
                + self.name + ">\n"@
        }
    }

    /// The markup of the first `n` children, each rendered with `indent`.
    pub open spec fn render_children(self, indent: Seq<char>, n: nat) -> Seq<char>
        decreases self, 0nat, n,
    {
        if n == 0 || n > self.children.len() {
            Seq::<char>::empty()
        } else {
            self.render_children(indent, (n - 1) as nat) + self.children[n - 1].render(indent)
        }
    }
}

/// An attribute of a tag.
pub struct Attrib {
    pub name: String,
    pub val: String,
}

impl View for Attrib {
    type V = AttribModel;

    open spec fn view(&self) -> AttribModel {
        AttribModel { name: self.name@, val: self.val@ }
    }
}

impl Attrib {
    pub fn new(nm: &str, val: String) -> (a: Attrib)
        ensures
            a@ == (AttribModel { name: nm@, val: val@ }),
    {
        Attrib { name: String::from_str(nm), val }
    }

    pub fn from(nm: &str, val: &str) -> (a: Attrib)
        ensures
            a@ == (AttribModel { name: nm@, val: val@ }),
    {
        Attrib::new(nm, String::from_str(val))
    }

    /// The attribute as it stands in an opening tag.
    pub fn to_string(&self) -> (s: String)
        ensures
            s@ == self@.text(),
    {
        let mut s = String::from_str(" ");
        s.append(self.name.as_str());
        if self.val.as_str().unicode_len() != 0 {
            s.append("=\"");
            s.append(self.val.as_str());
            s.append("\"");
        }
        s
    }
}

/// A node of the document tree.
pub struct Tag {
    pub name: String,
    pub value: String,
    pub attribs: Vec<Attrib>,
    pub children: Vec<Tag>,
}

/// The tree that `t` holds.
pub open spec fn element_of(t: Tag) -> Element
    decreases t,
{
    Element {
        name: t.name@,
        value: t.value@,
        attribs: t.attribs@.map_values(|a: Attrib| a@),
        children: Seq::new(
            t.children@.len(),
            |i: int|
                if 0 <= i < t.children@.len() {
                    element_of(t.children@[i])
                } else {
                    arbitrary()
                },
        ),
    }
}

impl View for Tag {
    type V = Element;

    open spec fn view(&self) -> Element {
        element_of(*self)
    }
}

impl Tag {
    pub fn new(nm: &str) -> (t: Tag)
        ensures
            t@ == Element::new(nm@),
    {
        let t = Tag {
            name: String::from_str(nm),
            value: String::new(),
            attribs: Vec::new(),
            children: Vec::new(),
        };
        assert(t@.attribs =~= Seq::<AttribModel>::empty());
        assert(t@.children =~= Seq::<Element>::empty());
        t
    }

    /// Adds `node` after the children.
    pub fn addchild(&mut self, node: Tag)
        ensures
            final(self)@ == old(self)@.child(node@),
    {
        self.children.push(node);
        assert(self@.children =~= old(self)@.children.push(node@));
        assert(self@.attribs =~= old(self)@.attribs);
    }

    /// Adds `atr` after the attributes.
    pub fn addattrib(&mut self, atr: Attrib)
        ensures
            final(self)@ == old(self)@.attr(atr@.name, atr@.val),
    {
        self.attribs.push(atr);
        assert(self@.attribs =~= old(self)@.attribs.push(atr@));
        assert(self@.children =~= old(self)@.children);
    }

    /// Adds the attribute `nm`, `val` after the attributes.
    pub fn newattrib(&mut self, nm: &str, val: &str)
        ensures
            final(self)@ == old(self)@.attr(nm@, val@),
    {
        self.addattrib(Attrib::from(nm, val));
    }

    /// The markup of this node and of all below it, each line starting with
    /// `indent`.
    pub fn to_svg(&self, indent: &str) -> (s: String)
        ensures
            s@ == self@.render(indent@),
        decreases self, 1nat,
    {
        let mut s = String::from_str(indent);
        s.append("<");
        s.append(self.name.as_str());
        if self.children.len() > 0 {
            if self.value.as_str().unicode_len() != 0 {
                let mut v = String::from_str(" value=\"");
                v.append(self.value.as_str());
                v.append("\"");
                s.append(v.as_str());
            } else {
                assert(s@ + Seq::<char>::empty() == s@);
            }
            s.append(self.attrib2string().as_str());
            s.append(">\n");
            s.append(self.child2string(indent).as_str());
            s.append(indent);
            s.append("</");
            s.append(self.name.as_str());
            s.append(">\n");
        } else if self.value.as_str().unicode_len() == 0 {
            s.append(self.attrib2string().as_str());
            s.append("/>\n");
        } else {
            s.append(self.attrib2string().as_str());
            s.append(">");
            s.append(self.value.as_str());
            s.append("</");
            s.append(self.name.as_str());
            s.append(">\n");
        }
        s
    }

    /// The text of all attributes.
    pub fn attrib2string(&self) -> (s: String)
        ensures
            s@ == attribs_text(self@.attribs),
    {
        let mut s = String::new();
        let mut i: usize = 0;
        while i < self.attribs.len()
            invariant
                i <= self.attribs.len(),
                s@ == attribs_text(self@.attribs.take(i as int)),
            decreases self.attribs.len() - i,
        {
            let part = self.attribs[i].to_string();
            s.append(part.as_str());
            proof {
                let next = self@.attribs.take(i + 1);
                assert(next.drop_last() == self@.attribs.take(i as int));
                assert(next.last() == self.attribs[i as int]@);
            }
            i += 1;
        }
        assert(self@.attribs.take(self.attribs.len() as int) == self@.attribs);
        s
    }

    /// The markup of all children, one level deeper than `indent`.
    pub fn child2string(&self, indent: &str) -> (s: String)
        ensures
            s@ == self@.render_children(indent@ + " "@, self@.children.len()),
        decreases self, 0nat,
    {
        let mut deeper = String::from_str(indent);
        deeper.append(" ");
        let mut s = String::new();
        let mut i: usize = 0;
        while i < self.children.len()
            invariant
                i <= self.children.len(),
                deeper@ == indent@ + " "@,
                s@ == self@.render_children(deeper@, i as nat),
            decreases self.children.len() - i,
        {
            let part = self.children[i].to_svg(deeper.as_str());
            s.append(part.as_str());
            assert(self@.children[i as int] == self.children[i as int]@);
            i += 1;
        }
        s
    }

    /// Whether this node has a child.
    pub fn has_child(&self) -> (b: bool)
        ensures
            b == (self@.children.len() > 0),
    {
        self.children.len() > 0
    }
}

/// The document: the root node with the canvas size and the namespace.
pub struct SVG {
    pub tag: Tag,
}

/// The root node of every document, before anything is drawn.
pub open spec fn svg_root() -> Element {
    Element::new("svg"@).attr("width"@, "260"@).attr("height"@, "275"@).attr(
        "viewBox"@,
        "0 0 260 275"@,
    ).attr("version"@, "1.1"@).attr("xmlns"@, "http://www.w3.org/2000/svg"@)
}

impl SVG {
    pub fn new() -> (svg: SVG)
        ensures
            svg.tag@ == svg_root(),
    {
        let mut tag = Tag::new("svg");
        tag.newattrib("width", "260");
        tag.newattrib("height", "275");
        tag.newattrib("viewBox", "0 0 260 275");
        tag.newattrib("version", "1.1");
        tag.newattrib("xmlns", "http://www.w3.org/2000/svg");
        SVG { tag }
    }

    /// The document text: the declaration line, then the markup of the root.
    pub fn to_string(&self) -> (s: String)
        ensures
            s@ == "<?xml version='1.0'?>\n"@ + self.tag@.render(Seq::<char>::empty()),
    {
        let mut s = String::from_str("<?xml version='1.0'?>\n");
        let body = self.tag.to_svg("");
        proof {
            reveal_strlit("");
            assert(""@ =~= Seq::<char>::empty());
        }
        s.append(body.as_str());
        s
    }
}

} // verus!
