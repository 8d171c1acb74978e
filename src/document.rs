use vstd::prelude::*;
use crate::directive::{Snippet, Directive, ParseError, ParseFailure, parse_spec};

verus! {

/// A node of a parsed document: a code block, or a container of child nodes in
/// document order.
pub enum DocNode {
    /// A fenced code block with its optional annotation and its body.
    Code { meta: Option<String>, value: String },
    /// Any other node.
    Container { children: Vec<DocNode> },
}

pub open spec fn snippet_views(v: Seq<Snippet>) -> Seq<Directive> {
    v.map_values(|s: Snippet| s@)
}

pub open spec fn children_of(n: DocNode) -> Seq<DocNode> {
    match n {
        DocNode::Code { .. } => Seq::empty(),
        DocNode::Container { children } => children@,
    }
}

/// The directives of a node's annotated code blocks, depth first and in document
/// order, or the failure of the first block that does not parse.
pub open spec fn collect_node(n: DocNode) -> Result<Seq<Directive>, ParseFailure>
    decreases n, 1int, 0int,
{
    match n {
        DocNode::Code { meta, value } => match meta {
            None => Ok(Seq::empty()),
            Some(m) => match parse_spec(m@, value@) {
                Ok(d) => Ok(seq![d]),
                Err(f) => Err(f),
            },
        },
        DocNode::Container { children } => collect_children(n, children@.len() as int),
    }
}

/// What the first `k` children of a node give, in order.
pub open spec fn collect_children(n: DocNode, k: int) -> Result<Seq<Directive>, ParseFailure>
    decreases n, 0int, k,
{
    if k <= 0 || k > children_of(n).len() {
        Ok(Seq::empty())
    } else {
        match collect_children(n, k - 1) {
            Err(f) => Err(f),
            Ok(ds) => {
                let c = children_of(n)[k - 1];
                match collect_node(c) {
                    Err(f) => Err(f),
                    Ok(es) => Ok(ds + es),
                }
            },
        }
    }
}

/// Once a child fails, every longer run of children fails the same way.
proof fn lemma_failure_persists(n: DocNode, i: int, k: int)
    requires
        0 <= i < k <= children_of(n).len(),
        collect_children(n, i) is Ok,
        collect_node(children_of(n)[i]) is Err,
    ensures
        collect_children(n, k) == collect_node(children_of(n)[i]),
    decreases k - i,
{
    if k > i + 1 {
        lemma_failure_persists(n, i, k - 1);
    }
}

/// Appends the directives of a node's annotated code blocks, depth first and in
/// document order; a block without annotation is skipped, and the first block that
/// does not parse stops the walk with its error.
pub fn add_snippets(snippets: &mut Vec<Snippet>, node: &DocNode) -> (r: Result<(), ParseError>)
    ensures
        match r {
            Ok(()) => collect_node(*node) is Ok && snippet_views(final(snippets)@) == snippet_views(
                old(snippets)@,
            ) + collect_node(*node)->Ok_0,
            Err(e) => collect_node(*node) == Err::<Seq<Directive>, ParseFailure>(e@),
        },
    decreases node,
{
    match node {
        DocNode::Code { meta, value } => {
            match meta {
                None => {
                    assert(snippet_views(snippets@) =~= snippet_views(snippets@) + Seq::<Directive>::empty());
                    Ok(())
                },
                Some(m) => match Snippet::parse(m.as_str(), value.as_str()) {
                    Ok(s) => {
                        let ghost before = snippets@;
                        snippets.push(s);
                        assert(snippet_views(snippets@) =~= snippet_views(before) + seq![s@]);
                        Ok(())
                    },
                    Err(e) => Err(e),
                },
            }
        },
        DocNode::Container { children } => {
            let ghost start = snippets@;
            let mut i: usize = 0;
            assert(snippet_views(start) =~= snippet_views(start) + Seq::<Directive>::empty());
            while i < children.len()
                invariant
                    i <= children.len(),
                    *node == (DocNode::Container { children: *children }),
                    start == old(snippets)@,
                    collect_children(*node, i as int) is Ok,
                    snippet_views(snippets@) == snippet_views(start) + collect_children(*node, i as int)->Ok_0,
                decreases children.len() - i,
            {
                assert(decreases_to!(*node => children@[i as int]));
                let ghost before = snippets@;
                match add_snippets(snippets, &children[i]) {
                    Ok(()) => {},
                    Err(e) => {
                        proof {
                            lemma_failure_persists(*node, i as int, children@.len() as int);
                        }
                        return Err(e);
                    },
                }
                proof {
                    assert(collect_children(*node, i + 1) == Ok::<Seq<Directive>, ParseFailure>(
                        collect_children(*node, i as int)->Ok_0 + collect_node(children@[i as int])->Ok_0,
                    ));
                }
                i = i + 1;
            }
            Ok(())
        },
    }
}

/// The directives of a whole document, in document order.
pub fn get_snippets(doc: &DocNode) -> (r: Result<Vec<Snippet>, ParseError>)
    ensures
        match r {
            Ok(v) => collect_node(*doc) == Ok::<Seq<Directive>, ParseFailure>(snippet_views(v@)),
            Err(e) => collect_node(*doc) == Err::<Seq<Directive>, ParseFailure>(e@),
        },
{
    let mut snippets: Vec<Snippet> = Vec::new();
    match add_snippets(&mut snippets, doc) {
        Ok(()) => {
            assert(snippet_views(Seq::<Snippet>::empty()) =~= Seq::<Directive>::empty());
            assert(Seq::<Directive>::empty() + collect_node(*doc)->Ok_0 =~= collect_node(*doc)->Ok_0);
            Ok(snippets)
        },
        Err(e) => Err(e),
    }
}

} // verus!
