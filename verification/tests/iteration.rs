//! Materializing elements and picking the elements of interest out of a document.

use firds::element::Element;
use firds::error::XmlError;
use firds::events::{local_name_of, EventQueue, EventSource, StartTag, XmlEvent, XmlReader};
use firds::iter_xml::{Mode, XmlIterator};

fn names(tags: &[&str]) -> Vec<String> {
    tags.iter().map(|t| t.to_string()).collect()
}

/// Everything that the iterator yields from a document.
fn all(tags: &[&str], document: &str) -> Vec<Result<Element, XmlError>> {
    let mut iterator = XmlIterator::from_bytes(names(tags), document.as_bytes());
    let mut found = Vec::new();
    while let Some(item) = iterator.next() {
        found.push(item);
    }
    assert_eq!(iterator.next(), None);
    found
}

fn leaf(name: &str, text: &str) -> Element {
    Element { local_name: name.to_string(), text: text.to_string(), ..Default::default() }
}

fn tag(name: &str) -> StartTag {
    StartTag { qname: name.to_string(), local_name: name.to_string(), ..Default::default() }
}

#[test]
fn matching_does_not_depend_on_depth() {
    let found = all(&["Foo"], "<Bar><Foo/></Bar><Foo/>");
    assert_eq!(found, vec![Ok(leaf("Foo", "")), Ok(leaf("Foo", ""))]);
    let found = all(&["Foo"], "<Bar><Foo></Foo></Bar><Foo></Foo>");
    assert_eq!(found.len(), 2);
    let found = all(&["Foo"], "<A><B><C><Foo>1</Foo></C><Foo>2</Foo></B></A><Foo>3</Foo>");
    assert_eq!(found, vec![Ok(leaf("Foo", "1")), Ok(leaf("Foo", "2")), Ok(leaf("Foo", "3"))]);
}

#[test]
fn elements_of_several_names() {
    let found = all(&["NewRcrd", "TermntdRcrd"], "<R><NewRcrd>a</NewRcrd><ModfdRcrd>b</ModfdRcrd><TermntdRcrd>c</TermntdRcrd></R>");
    assert_eq!(found, vec![Ok(leaf("NewRcrd", "a")), Ok(leaf("TermntdRcrd", "c"))]);
}

#[test]
fn nothing_of_interest() {
    assert_eq!(all(&["Foo"], "<Bar><Baz/></Bar>"), vec![]);
    assert_eq!(all(&["Foo"], ""), vec![]);
    assert_eq!(all(&[], "<Foo/>"), vec![]);
    assert_eq!(all(&["foo"], "<Foo/>"), vec![]);
}

#[test]
fn an_element_of_interest_inside_another_is_part_of_it() {
    let found = all(&["Foo"], "<Foo><Foo>inner</Foo></Foo>");
    let mut outer = leaf("Foo", "");
    outer.children = vec![leaf("Foo", "inner")];
    assert_eq!(found, vec![Ok(outer)]);
}

#[test]
fn children_in_order_and_own_text_only() {
    let found = all(
        &["Root"],
        "<Doc><Root>hello <B>inner</B>world<C/><B>two<D>deep</D></B>!</Root><After/></Doc>",
    );
    let mut second = leaf("B", "two");
    second.children = vec![leaf("D", "deep")];
    let mut root = leaf("Root", "hello world!");
    root.children = vec![leaf("B", "inner"), leaf("C", ""), second];
    assert_eq!(found, vec![Ok(root)]);
}

#[test]
fn nested_elements_of_one_name_end_at_their_own_closing_tags() {
    let found = all(&["A"], "<A>1<A>2<A>3</A>4</A>5</A><A>6</A>");
    let mut middle = leaf("A", "24");
    middle.children = vec![leaf("A", "3")];
    let mut outer = leaf("A", "15");
    outer.children = vec![middle];
    assert_eq!(found, vec![Ok(outer), Ok(leaf("A", "6"))]);
}

#[test]
fn attributes_and_text_are_unescaped() {
    let found = all(&["Amt"], "<Amt Ccy=\"EUR\" note = 'a &lt; b &amp; c'>1 &gt; 0 &#38; &quot;x&quot;</Amt>");
    let mut amount = leaf("Amt", "1 > 0 & \"x\"");
    amount.attributes = vec![
        ("Ccy".to_string(), "EUR".to_string()),
        ("note".to_string(), "a < b & c".to_string()),
    ];
    assert_eq!(found, vec![Ok(amount)]);
    assert_eq!(found[0].as_ref().unwrap().get_attr("note"), Ok(&"a < b & c".to_string()));
}

#[test]
fn text_that_cannot_be_unescaped_is_left_out() {
    let found = all(&["A"], "<A>one &nosuchentity; two<B/>three</A>");
    let mut a = leaf("A", "three");
    a.children = vec![leaf("B", "")];
    assert_eq!(found, vec![Ok(a)]);
}

#[test]
fn comments_and_the_like_are_passed_over() {
    let found = all(
        &["A"],
        "<?xml version=\"1.0\"?><!DOCTYPE x><!-- <A>no</A> --><A>a<!-- c -->b<?pi x?><![CDATA[<A>raw</A>]]>c</A>",
    );
    assert_eq!(found, vec![Ok(leaf("A", "abc"))]);
}

#[test]
fn namespaces_are_resolved_and_prefixes_stripped() {
    let found = all(
        &["r:Root"],
        "<r:Root xmlns:r=\"urn:one\" xmlns=\"urn:two\"><r:Child/><Plain/><x:Other/></r:Root>",
    );
    let root = found[0].as_ref().unwrap();
    assert_eq!(root.local_name, "Root");
    assert_eq!(root.namespace, Some("urn:one".to_string()));
    assert_eq!(root.children.len(), 3);
    assert_eq!(root.children[0].local_name, "Child");
    assert_eq!(root.children[0].namespace, Some("urn:one".to_string()));
    assert_eq!(root.children[1].local_name, "Plain");
    assert_eq!(root.children[1].namespace, Some("urn:two".to_string()));
    assert_eq!(root.children[2].local_name, "Other");
    assert_eq!(root.children[2].namespace, None);
    assert_eq!(root.find_child("Child").map(|c| c.local_name.as_str()), Some("Child"));
}

#[test]
fn without_a_binding_there_is_no_namespace() {
    let found = all(&["Root"], "<Root><Child/></Root>");
    let root = found[0].as_ref().unwrap();
    assert_eq!(root.namespace, None);
    assert_eq!(root.children[0].namespace, None);
}

#[test]
fn interest_is_in_the_name_as_written() {
    assert_eq!(all(&["Root"], "<r:Root xmlns:r=\"urn:one\"/>"), vec![]);
    assert_eq!(all(&["r:Root"], "<r:Root xmlns:r=\"urn:one\"/>").len(), 1);
    assert_eq!(all(&["r:Root"], "<Root/>"), vec![]);
}

#[test]
fn the_end_of_input_ends_an_open_element() {
    let found = all(&["A"], "<Doc><A>text<B>inner");
    let mut a = leaf("A", "text");
    a.children = vec![leaf("B", "inner")];
    assert_eq!(found, vec![Ok(a)]);
    assert_eq!(all(&["A"], "<A"), vec![Err(XmlError::Malformed)]);
}

#[test]
fn rejected_input_is_yielded_as_an_error_and_the_scan_goes_on() {
    let found = all(&["Foo"], "</Stray><Foo>1</Foo></Other><Foo>2</Foo>");
    assert_eq!(
        found,
        vec![
            Err(XmlError::Malformed),
            Ok(leaf("Foo", "1")),
            Err(XmlError::Malformed),
            Ok(leaf("Foo", "2")),
        ]
    );
}

#[test]
fn rejected_input_inside_an_element_is_passed_over() {
    let found = all(&["A"], "<A>1<B>2</C>3</A>");
    let mut a = leaf("A", "1");
    a.children = vec![leaf("B", "23")];
    assert_eq!(found, vec![Ok(a)]);
}

#[test]
fn events_of_a_document() {
    let mut reader = XmlReader::new("<a:T xmlns:a=\"urn:a\" k=\"v\">x<E/></a:T> ".as_bytes());
    assert_eq!(
        reader.next_event(),
        XmlEvent::Start(StartTag {
            qname: "a:T".to_string(),
            local_name: "T".to_string(),
            namespace: Some("urn:a".to_string()),
            attributes: vec![
                ("xmlns:a".to_string(), "urn:a".to_string()),
                ("k".to_string(), "v".to_string()),
            ],
        })
    );
    assert_eq!(reader.next_event(), XmlEvent::Text("x".to_string()));
    assert_eq!(reader.next_event(), XmlEvent::Empty(tag("E")));
    assert_eq!(reader.next_event(), XmlEvent::End("a:T".to_string()));
    assert_eq!(reader.next_event(), XmlEvent::Text(" ".to_string()));
    assert_eq!(reader.next_event(), XmlEvent::Eof);
    assert_eq!(reader.next_event(), XmlEvent::Eof);
}

#[test]
fn events_that_are_neither_tag_nor_text() {
    let mut reader = XmlReader::new("<?xml version=\"1.0\"?><!--c--><![CDATA[d]]></x>".as_bytes());
    assert_eq!(reader.next_event(), XmlEvent::Other);
    assert_eq!(reader.next_event(), XmlEvent::Other);
    assert_eq!(reader.next_event(), XmlEvent::Other);
    assert_eq!(reader.next_event(), XmlEvent::Invalid);
    assert_eq!(reader.next_event(), XmlEvent::Eof);
}

#[test]
fn queue_hands_out_its_events_in_order() {
    let mut queue = EventQueue::new(vec![
        XmlEvent::Text("a".to_string()),
        XmlEvent::Other,
        XmlEvent::End("x".to_string()),
    ]);
    assert_eq!(queue.next_event(), XmlEvent::Text("a".to_string()));
    assert_eq!(queue.next_event(), XmlEvent::Other);
    assert_eq!(queue.next_event(), XmlEvent::End("x".to_string()));
    assert_eq!(queue.next_event(), XmlEvent::Eof);
    assert_eq!(queue.next_event(), XmlEvent::Eof);
}

#[test]
fn queue_ends_at_the_first_end_of_input() {
    let mut queue = EventQueue::new(vec![
        XmlEvent::Text("a".to_string()),
        XmlEvent::Eof,
        XmlEvent::Text("b".to_string()),
    ]);
    assert_eq!(queue.next_event(), XmlEvent::Text("a".to_string()));
    assert_eq!(queue.next_event(), XmlEvent::Eof);
    assert_eq!(queue.next_event(), XmlEvent::Eof);
    let mut empty = EventQueue::new(vec![]);
    assert_eq!(empty.next_event(), XmlEvent::Eof);
}

#[test]
fn materialize_from_given_events() {
    let mut inner = tag("p:B");
    inner.local_name = "B".to_string();
    inner.attributes = vec![("k".to_string(), "1".to_string()), ("k".to_string(), "2".to_string())];
    let queue = EventQueue::new(vec![
        XmlEvent::Text("a".to_string()),
        XmlEvent::Start(inner.clone()),
        XmlEvent::Text("b".to_string()),
        XmlEvent::End("B".to_string()),
        XmlEvent::Invalid,
        XmlEvent::End("p:B".to_string()),
        XmlEvent::Empty(tag("C")),
        XmlEvent::Text("c".to_string()),
        XmlEvent::End("A".to_string()),
        XmlEvent::Text("after".to_string()),
    ]);
    let mut iterator = XmlIterator::new(names(&[]), queue);
    let a = iterator.parse_start(tag("A")).unwrap();
    let mut b = leaf("B", "b");
    b.attributes = inner.attributes.clone();
    let mut expected = leaf("A", "ac");
    expected.children = vec![b, leaf("C", "")];
    assert_eq!(a, expected);
    assert_eq!(a.children[0].find_attr("k"), Some(&"2".to_string()));
    assert_eq!(iterator.next(), None);
}

#[test]
fn scan_given_events() {
    let queue = EventQueue::new(vec![
        XmlEvent::Start(tag("Doc")),
        XmlEvent::Invalid,
        XmlEvent::Empty(tag("Foo")),
        XmlEvent::End("Foo".to_string()),
        XmlEvent::Start(tag("Foo")),
        XmlEvent::Text("open".to_string()),
    ]);
    let mut iterator = XmlIterator::new(names(&["Foo"]), queue);
    assert_eq!(iterator.next(), Some(Err(XmlError::Malformed)));
    assert_eq!(iterator.next(), Some(Ok(leaf("Foo", ""))));
    assert_eq!(iterator.next(), Some(Ok(leaf("Foo", "open"))));
    assert_eq!(iterator.next(), None);
    assert_eq!(iterator.next(), None);
}

/// Everything that a strict iterator yields from a document.
fn all_strict(tags: &[&str], document: &str) -> Vec<Result<Element, XmlError>> {
    let mut iterator =
        XmlIterator::with_mode(names(tags), XmlReader::new(document.as_bytes()), Mode::Strict);
    let mut found = Vec::new();
    while let Some(item) = iterator.next() {
        found.push(item);
    }
    found
}

#[test]
fn strict_and_lenient_agree_on_a_sound_document() {
    let document = "<Doc><A k=\"v\">1<B>2</B><C/>3</A><A/><!-- c --><A>4</A></Doc>";
    assert_eq!(all_strict(&["A"], document), all(&["A"], document));
    assert_eq!(all_strict(&["A"], document).len(), 3);
    let lenient =
        XmlIterator::with_mode(names(&["A"]), XmlReader::new(document.as_bytes()), Mode::Lenient);
    let mut lenient = lenient;
    assert_eq!(lenient.next(), all(&["A"], document).into_iter().next());
}

#[test]
fn strict_takes_the_end_of_input_inside_an_element_as_an_error() {
    assert_eq!(all_strict(&["A"], "<Doc><A>text<B>inner"), vec![Err(XmlError::UnexpectedEof)]);
    assert_eq!(all_strict(&["A"], "<A>"), vec![Err(XmlError::UnexpectedEof)]);
    assert_eq!(all_strict(&["A"], "<A></A><A>x"), vec![Ok(leaf("A", "")), Err(XmlError::UnexpectedEof)]);
    assert_eq!(all_strict(&["A"], "<Doc><A>1</A>"), vec![Ok(leaf("A", "1"))]);
}

#[test]
fn strict_takes_rejected_input_inside_an_element_as_an_error() {
    assert_eq!(
        all_strict(&["A"], "<A>1<B>2</C>3</A><A>4</A>"),
        vec![Err(XmlError::Malformed), Ok(leaf("A", "4"))]
    );
}

#[test]
fn strict_reading_of_given_events() {
    let queue = EventQueue::new(vec![
        XmlEvent::Text("a".to_string()),
        XmlEvent::Start(tag("B")),
        XmlEvent::Invalid,
        XmlEvent::End("B".to_string()),
        XmlEvent::End("A".to_string()),
    ]);
    let mut queue = queue;
    assert_eq!(Element::parse_start_in(&mut queue, tag("A"), Mode::Strict), Err(XmlError::Malformed));
    assert_eq!(queue.next_event(), XmlEvent::End("B".to_string()));
    let mut queue = EventQueue::new(vec![XmlEvent::Text("a".to_string())]);
    assert_eq!(
        Element::parse_start_in(&mut queue, tag("A"), Mode::Strict),
        Err(XmlError::UnexpectedEof)
    );
    let mut queue = EventQueue::new(vec![XmlEvent::Text("a".to_string())]);
    assert_eq!(Element::parse_start_in(&mut queue, tag("A"), Mode::Lenient), Ok(leaf("A", "a")));
    let mut queue = EventQueue::new(vec![XmlEvent::Text("a".to_string()), XmlEvent::Invalid]);
    assert_eq!(Element::parse_start(&mut queue, tag("A")), Ok(leaf("A", "a")));
}

#[test]
fn everything_that_an_iterator_yields() {
    let document = "<Doc></Stray><W><Foo>1</Foo></W><Foo/><Bar><Foo>3";
    let iterator = XmlIterator::from_bytes(names(&["Foo"]), document.as_bytes());
    assert_eq!(
        iterator.collect_all(),
        vec![Err(XmlError::Malformed), Ok(leaf("Foo", "1")), Ok(leaf("Foo", "")), Ok(leaf("Foo", "3"))]
    );
    assert_eq!(iterator_of("").collect_all(), vec![]);
    let mut started = iterator_of("<Foo>a</Foo><Foo>b</Foo><Foo>c</Foo>");
    assert_eq!(started.next(), Some(Ok(leaf("Foo", "a"))));
    assert_eq!(started.collect_all(), vec![Ok(leaf("Foo", "b")), Ok(leaf("Foo", "c"))]);
}

fn iterator_of(document: &'static str) -> XmlIterator<XmlReader<'static>> {
    XmlIterator::from_bytes(names(&["Foo"]), document.as_bytes())
}

#[test]
fn as_many_elements_as_the_document_holds() {
    let mut document = String::from("<Doc>");
    for i in 0..250 {
        document.push_str(&format!("<W{}><Foo n=\"{}\">{}</Foo><X/></W{}>", i % 7, i, i, i % 7));
    }
    document.push_str("</Doc>");
    let found = XmlIterator::from_bytes(names(&["Foo"]), document.as_bytes()).collect_all();
    assert_eq!(found.len(), 250);
    for (i, item) in found.iter().enumerate() {
        let element = item.as_ref().unwrap();
        assert_eq!(element.text, i.to_string());
        assert_eq!(element.get_attr("n"), Ok(&i.to_string()));
    }
}

#[test]
fn local_part_of_a_name() {
    assert_eq!(local_name_of("RefData"), "RefData");
    assert_eq!(local_name_of("r:RefData"), "RefData");
    assert_eq!(local_name_of("a:b:c"), "b:c");
    assert_eq!(local_name_of(":x"), "x");
    assert_eq!(local_name_of("x:"), "");
    assert_eq!(local_name_of(":"), "");
    assert_eq!(local_name_of(""), "");
    assert_eq!(local_name_of("pr\u{e9}fixe:\u{e9}l\u{e9}ment"), "\u{e9}l\u{e9}ment");
    assert_eq!(local_name_of("\u{e9}l\u{e9}ment"), "\u{e9}l\u{e9}ment");
    assert_eq!(local_name_of("a:\u{e9}:b"), "\u{e9}:b");
}

/// The events that a tree is written as: the content of the element after its
/// opening tag, with its text first.
fn content_of(element: &Element) -> Vec<XmlEvent> {
    let mut events = Vec::new();
    if !element.text.is_empty() {
        events.push(XmlEvent::Text(element.text.clone()));
    }
    for child in &element.children {
        events.push(XmlEvent::Start(tag_of(child)));
        events.extend(content_of(child));
    }
    events.push(XmlEvent::End(element.local_name.clone()));
    events
}

fn tag_of(element: &Element) -> StartTag {
    StartTag {
        qname: element.local_name.clone(),
        local_name: element.local_name.clone(),
        namespace: element.namespace.clone(),
        attributes: element.attributes.clone(),
    }
}

fn tree(depth: u32, seed: u32) -> Element {
    let mut element = leaf(&format!("N{}", seed % 3), &"t".repeat((seed % 4) as usize));
    if seed % 2 == 0 {
        element.namespace = Some(format!("urn:{seed}"));
    }
    if seed % 5 != 0 {
        element.attributes = vec![("k".to_string(), seed.to_string())];
    }
    if depth > 0 {
        for i in 0..(seed % 4) {
            element.children.push(tree(depth - 1, seed.wrapping_mul(31).wrapping_add(i + 1)));
        }
    }
    element
}

#[test]
fn a_tree_that_is_written_as_events_comes_back() {
    for seed in 0..40 {
        for mode in [Mode::Lenient, Mode::Strict] {
            let original = tree(4, seed);
            let mut events = content_of(&original);
            events.push(XmlEvent::Text("what follows".to_string()));
            let mut queue = EventQueue::new(events);
            assert_eq!(Element::parse_start_in(&mut queue, tag_of(&original), mode), Ok(tree(4, seed)));
            assert_eq!(queue.next_event(), XmlEvent::Text("what follows".to_string()));
            assert_eq!(queue.next_event(), XmlEvent::Eof);
        }
    }
}
