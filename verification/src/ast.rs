//! The syntax-tree data model: the closed set of node shapes, the
//! attribute-value model, and the `Ast` root list.  Nodes are constructed
//! once, fully populated, and never mutated afterwards; a tree is built
//! bottom-up from already-finished children.
use vstd::prelude::*;

use crate::error::NodeError;

verus! {

broadcast use vstd::std_specs::vec::group_vec_axioms;

/// The value of an attribute: quoted or bare text, or a bare attribute name
/// with no value at all.
#[derive(Debug, PartialEq)]
pub enum AttributeValue {
    /// A quoted or bare attribute value.
    Value(String),
    /// An attribute present with no value, such as `disabled`.
    Boolean,
}

/// The mathematical value of an [`AttributeValue`].
#[verifier::ext_equal]
pub enum AttributeValueView {
    Value(Seq<char>),
    Boolean,
}

impl DeepView for AttributeValue {
    type V = AttributeValueView;

    open spec fn deep_view(&self) -> AttributeValueView {
        match self {
            AttributeValue::Value(s) => AttributeValueView::Value(s@),
            AttributeValue::Boolean => AttributeValueView::Boolean,
        }
    }
}

/// One node of the syntax tree.
#[derive(Debug, PartialEq)]
pub enum Node {
    /// A markup element with a matching close tag and nested content.
    HTMLElement {
        tag: String,
        attributes: Vec<(String, AttributeValue)>,
        children: Vec<Node>,
    },
    /// A self-closing markup element with no children slot.
    HTMLVoidElement { tag: String, attributes: Vec<(String, AttributeValue)> },
    /// A markup comment body, exclusive of its delimiters.
    HTMLComment(String),
    /// The declaration body between `<!` and `>`.
    HTMLDoctype { doctype: String },
    /// A verbatim script container; its content is not re-tokenized.
    Script { attributes: Vec<(String, AttributeValue)>, content: String },
    /// A verbatim style container; its content is not re-tokenized.
    Style { attributes: Vec<(String, AttributeValue)>, content: String },
    /// Raw text between `{{` and `}}`.
    DjangoVariable(String),
    /// A templating control tag; its name is non-empty by construction.
    DjangoBlock { name: String, arguments: Vec<String>, children: Vec<Node> },
    /// Raw text between `{#` and `#}`.
    DjangoComment(String),
    /// A literal run of non-delimiter characters.
    Text(String),
}

/// The mathematical value of a [`Node`].
#[verifier::ext_equal]
pub enum NodeView {
    HTMLElement {
        tag: Seq<char>,
        attributes: Seq<(Seq<char>, AttributeValueView)>,
        children: Seq<NodeView>,
    },
    HTMLVoidElement { tag: Seq<char>, attributes: Seq<(Seq<char>, AttributeValueView)> },
    HTMLComment(Seq<char>),
    HTMLDoctype { doctype: Seq<char> },
    Script { attributes: Seq<(Seq<char>, AttributeValueView)>, content: Seq<char> },
    Style { attributes: Seq<(Seq<char>, AttributeValueView)>, content: Seq<char> },
    DjangoVariable(Seq<char>),
    DjangoBlock { name: Seq<char>, arguments: Seq<Seq<char>>, children: Seq<NodeView> },
    DjangoComment(Seq<char>),
    Text(Seq<char>),
}

/// The mathematical value of one node, recursing into its children.
pub open spec fn spec_node_view(n: Node) -> NodeView
    decreases n,
{
    match n {
        Node::HTMLElement { tag, attributes, children } => NodeView::HTMLElement {
            tag: tag@,
            attributes: attributes.deep_view(),
            children: spec_nodes_view(children@),
        },
        Node::HTMLVoidElement { tag, attributes } => NodeView::HTMLVoidElement {
            tag: tag@,
            attributes: attributes.deep_view(),
        },
        Node::HTMLComment(content) => NodeView::HTMLComment(content@),
        Node::HTMLDoctype { doctype } => NodeView::HTMLDoctype { doctype: doctype@ },
        Node::Script { attributes, content } => NodeView::Script {
            attributes: attributes.deep_view(),
            content: content@,
        },
        Node::Style { attributes, content } => NodeView::Style {
            attributes: attributes.deep_view(),
            content: content@,
        },
        Node::DjangoVariable(content) => NodeView::DjangoVariable(content@),
        Node::DjangoBlock { name, arguments, children } => NodeView::DjangoBlock {
            name: name@,
            arguments: arguments.deep_view(),
            children: spec_nodes_view(children@),
        },
        Node::DjangoComment(content) => NodeView::DjangoComment(content@),
        Node::Text(content) => NodeView::Text(content@),
    }
}

/// The mathematical values of a sequence of nodes, in order.
pub open spec fn spec_nodes_view(s: Seq<Node>) -> Seq<NodeView>
    decreases s,
{
    if s.len() == 0 {
        Seq::empty()
    } else {
        seq![spec_node_view(s[0])] + spec_nodes_view(s.subrange(1, s.len() as int))
    }
}

/// [`spec_nodes_view`] is the pointwise [`spec_node_view`].
pub proof fn lemma_nodes_view_pointwise(s: Seq<Node>)
    ensures
        spec_nodes_view(s).len() == s.len(),
        forall|i: int| 0 <= i < s.len() ==> spec_nodes_view(s)[i] == spec_node_view(#[trigger] s[i]),
    decreases s.len(),
{
    if s.len() > 0 {
        lemma_nodes_view_pointwise(s.subrange(1, s.len() as int));
        assert forall|i: int| 0 <= i < s.len() implies spec_nodes_view(s)[i] == spec_node_view(
            #[trigger] s[i],
        ) by {
            if i > 0 {
                assert(s.subrange(1, s.len() as int)[i - 1] == s[i]);
            }
        }
    }
}

impl DeepView for Node {
    type V = NodeView;

    open spec fn deep_view(&self) -> NodeView {
        spec_node_view(*self)
    }
}

/// The attribute list a constructor stores for an optional argument: the
/// given list, or empty for `None`.
pub open spec fn spec_opt_attributes(attributes: Option<Vec<(String, AttributeValue)>>) -> Seq<
    (Seq<char>, AttributeValueView),
> {
    match attributes {
        Some(a) => a.deep_view(),
        None => Seq::empty(),
    }
}

/// The child list a constructor stores for an optional argument: the given
/// list, or empty for `None`.
pub open spec fn spec_opt_children(children: Option<Vec<Node>>) -> Seq<NodeView> {
    match children {
        Some(c) => c.deep_view(),
        None => Seq::empty(),
    }
}

/// The argument list a constructor stores for an optional argument: the
/// given list, or empty for `None`.
pub open spec fn spec_opt_arguments(arguments: Option<Vec<String>>) -> Seq<Seq<char>> {
    match arguments {
        Some(a) => a.deep_view(),
        None => Seq::empty(),
    }
}

impl Node {
    /// Builds a markup element node; fails exactly when the tag is empty.
    /// `None` attributes or children stand for empty lists.
    pub fn new_html_element(
        tag: String,
        attributes: Option<Vec<(String, AttributeValue)>>,
        children: Option<Vec<Node>>,
    ) -> (r: Result<Self, NodeError>)
        ensures
            tag@.len() == 0 ==> (r matches Err(e) && e == NodeError::NoTagName),
            tag@.len() > 0 ==> (r matches Ok(n) && n.deep_view() == (NodeView::HTMLElement {
                tag: tag@,
                attributes: spec_opt_attributes(attributes),
                children: spec_opt_children(children),
            })),
    {
        if tag.as_str().is_empty() {
            return Err(NodeError::NoTagName);
        }
        let ghost attrs0 = spec_opt_attributes(attributes);
        let ghost children0 = spec_opt_children(children);
        let attributes = match attributes {
            Some(a) => a,
            None => Vec::new(),
        };
        let children = match children {
            Some(c) => c,
            None => Vec::new(),
        };
        let n = Node::HTMLElement { tag, attributes, children };
        proof {
            lemma_nodes_view_pointwise(children@);
            assert(spec_nodes_view(children@) =~= children0);
            assert(n.deep_view() =~~= (NodeView::HTMLElement {
                tag: tag@,
                attributes: attrs0,
                children: children0,
            }));
        }
        Ok(n)
    }

    /// Builds a self-closing markup element node; fails exactly when the tag
    /// is empty.  `None` attributes stand for an empty list.
    pub fn new_html_void_element(
        tag: String,
        attributes: Option<Vec<(String, AttributeValue)>>,
    ) -> (r: Result<Self, NodeError>)
        ensures
            tag@.len() == 0 ==> (r matches Err(e) && e == NodeError::NoTagName),
            tag@.len() > 0 ==> (r matches Ok(n) && n.deep_view() == (NodeView::HTMLVoidElement {
                tag: tag@,
                attributes: spec_opt_attributes(attributes),
            })),
    {
        if tag.as_str().is_empty() {
            return Err(NodeError::NoTagName);
        }
        let ghost attrs0 = spec_opt_attributes(attributes);
        let attributes = match attributes {
            Some(a) => a,
            None => Vec::new(),
        };
        let n = Node::HTMLVoidElement { tag, attributes };
        proof {
            assert(n.deep_view() =~~= (NodeView::HTMLVoidElement { tag: tag@, attributes: attrs0 }));
        }
        Ok(n)
    }

    /// Builds a markup comment node; never fails.
    pub fn new_html_comment(content: String) -> (r: Result<Self, NodeError>)
        ensures
            r matches Ok(n) && n.deep_view() == NodeView::HTMLComment(content@),
    {
        Ok(Node::HTMLComment(content))
    }

    /// Builds a doctype node; never fails.
    pub fn new_html_doctype(doctype: String) -> (r: Result<Self, NodeError>)
        ensures
            r matches Ok(n) && n.deep_view() == (NodeView::HTMLDoctype { doctype: doctype@ }),
    {
        Ok(Node::HTMLDoctype { doctype })
    }

    /// Builds a verbatim script container node; never fails.  `None`
    /// attributes stand for an empty list.
    pub fn new_script(
        attributes: Option<Vec<(String, AttributeValue)>>,
        content: String,
    ) -> (r: Result<Self, NodeError>)
        ensures
            r matches Ok(n) && n.deep_view() == (NodeView::Script {
                attributes: spec_opt_attributes(attributes),
                content: content@,
            }),
    {
        let ghost attrs0 = spec_opt_attributes(attributes);
        let attributes = match attributes {
            Some(a) => a,
            None => Vec::new(),
        };
        let n = Node::Script { attributes, content };
        proof {
            assert(n.deep_view() =~~= (NodeView::Script { attributes: attrs0, content: content@ }));
        }
        Ok(n)
    }

    /// Builds a verbatim style container node; never fails.  `None`
    /// attributes stand for an empty list.
    pub fn new_style(
        attributes: Option<Vec<(String, AttributeValue)>>,
        content: String,
    ) -> (r: Result<Self, NodeError>)
        ensures
            r matches Ok(n) && n.deep_view() == (NodeView::Style {
                attributes: spec_opt_attributes(attributes),
                content: content@,
            }),
    {
        let ghost attrs0 = spec_opt_attributes(attributes);
        let attributes = match attributes {
            Some(a) => a,
            None => Vec::new(),
        };
        let n = Node::Style { attributes, content };
        proof {
            assert(n.deep_view() =~~= (NodeView::Style { attributes: attrs0, content: content@ }));
        }
        Ok(n)
    }

    /// Builds a templating variable node; never fails.
    pub fn new_django_variable(content: String) -> (r: Result<Self, NodeError>)
        ensures
            r matches Ok(n) && n.deep_view() == NodeView::DjangoVariable(content@),
    {
        Ok(Node::DjangoVariable(content))
    }

    /// Builds a templating block node; fails exactly when the name is empty.
    /// `None` arguments or children stand for empty lists.
    pub fn new_django_block(
        name: String,
        arguments: Option<Vec<String>>,
        children: Option<Vec<Node>>,
    ) -> (r: Result<Self, NodeError>)
        ensures
            name@.len() == 0 ==> (r matches Err(e) && e == NodeError::NoBlockName),
            name@.len() > 0 ==> (r matches Ok(n) && n.deep_view() == (NodeView::DjangoBlock {
                name: name@,
                arguments: spec_opt_arguments(arguments),
                children: spec_opt_children(children),
            })),
    {
        if name.as_str().is_empty() {
            return Err(NodeError::NoBlockName);
        }
        let ghost args0 = spec_opt_arguments(arguments);
        let ghost children0 = spec_opt_children(children);
        let arguments = match arguments {
            Some(a) => a,
            None => Vec::new(),
        };
        let children = match children {
            Some(c) => c,
            None => Vec::new(),
        };
        let n = Node::DjangoBlock { name, arguments, children };
        proof {
            lemma_nodes_view_pointwise(children@);
            assert(spec_nodes_view(children@) =~= children0);
            assert(n.deep_view() =~~= (NodeView::DjangoBlock {
                name: name@,
                arguments: args0,
                children: children0,
            }));
        }
        Ok(n)
    }

    /// Builds a templating comment node; never fails.
    pub fn new_django_comment(content: String) -> (r: Result<Self, NodeError>)
        ensures
            r matches Ok(n) && n.deep_view() == NodeView::DjangoComment(content@),
    {
        Ok(Node::DjangoComment(content))
    }

    /// Builds a literal text node; never fails.
    pub fn new_text(content: String) -> (r: Result<Self, NodeError>)
        ensures
            r matches Ok(n) && n.deep_view() == NodeView::Text(content@),
    {
        Ok(Node::Text(content))
    }
}

/// The syntax tree: the ordered list of the template's root-level sibling
/// nodes.
#[derive(Debug, PartialEq)]
pub struct Ast {
    pub nodes: Vec<Node>,
}

impl DeepView for Ast {
    type V = Seq<NodeView>;

    open spec fn deep_view(&self) -> Seq<NodeView> {
        self.nodes.deep_view()
    }
}

impl Ast {
    /// An empty tree.
    pub fn new() -> (r: Self)
        ensures
            r.deep_view() == Seq::<NodeView>::empty(),
    {
        let r = Ast { nodes: Vec::new() };
        proof {
            assert(r.deep_view() =~= Seq::<NodeView>::empty());
        }
        r
    }

    /// Appends a node to the root list.
    pub fn add_node(&mut self, node: Node)
        ensures
            final(self).deep_view() == old(self).deep_view().push(node.deep_view()),
    {
        self.nodes.push(node);
        proof {
            assert(self.deep_view() =~= old(self).deep_view().push(node.deep_view()));
        }
    }
}

} // verus!
