use via_engine::engine::OmniseyeEngine;
use via_engine::uia::{
    control_type_name, push_element_line, ElementProps, Rect, UiCrawl, UiWalk, WalkAction, WalkEvent,
};

fn props(ct: i32, name: &str) -> ElementProps {
    ElementProps {
        control_type: ct,
        name: name.to_string(),
        automation_id: String::new(),
        rect: Rect { left: 0, top: 0, right: 0, bottom: 0 },
        enabled: true,
        focused: false,
        offscreen: false,
        pid: 0,
        hwnd: 0,
    }
}

const HEADER: &str = "; VIA GUI MAP\n; type name [state...] x1,y1,x2,y2 [h=hwnd] [p=pid]\n";

#[test]
fn control_type_names() {
    assert_eq!(control_type_name(50000), "btn");
    assert_eq!(control_type_name(50004), "edit");
    assert_eq!(control_type_name(50005), "lnk");
    assert_eq!(control_type_name(50008), "list");
    assert_eq!(control_type_name(50009), "menu");
    assert_eq!(control_type_name(50014), "bar");
    assert_eq!(control_type_name(50021), "bar");
    assert_eq!(control_type_name(50023), "tree");
    assert_eq!(control_type_name(50025), "cust");
    assert_eq!(control_type_name(50032), "wind");
    assert_eq!(control_type_name(50033), "pane");
    assert_eq!(control_type_name(50036), "tbl");
    assert_eq!(control_type_name(50037), "ttlb");
    assert_eq!(control_type_name(50038), "sep");
    assert_eq!(control_type_name(50041), "?");
    assert_eq!(control_type_name(-1), "?");
    for id in 50000..=50040 {
        assert_ne!(control_type_name(id), "?");
    }
}

#[test]
fn element_line_lists_state() {
    let mut out = String::new();
    let p = ElementProps {
        control_type: 50037,
        name: "Calculator".to_string(),
        automation_id: "TitleBar".to_string(),
        rect: Rect { left: 0, top: 0, right: 400, bottom: 600 },
        enabled: false,
        focused: true,
        offscreen: true,
        pid: 1234,
        hwnd: 0x1000c,
    };
    push_element_line(&mut out, 2, &p);
    assert_eq!(out, "    ttlb Calculator +fcs +off 0,0,400,600 h=0x1000c p=1234\n");
}

#[test]
fn element_line_falls_back_to_automation_id() {
    let mut out = String::new();
    let mut p = props(50000, "");
    p.automation_id = "num7Button".to_string();
    p.rect = Rect { left: -5, top: 40, right: -5, bottom: 41 };
    push_element_line(&mut out, 0, &p);
    assert_eq!(out, "btn #num7Button +enabled +visible -5,40,-5,41\n");
    let mut out = String::new();
    let mut q = props(-1, "");
    q.rect = Rect { left: 10, top: 10, right: 5, bottom: 5 };
    q.pid = -3;
    q.hwnd = -1;
    push_element_line(&mut out, 1, &q);
    assert_eq!(out, format!("  ? +enabled +visible h=0x{:x} p=-3\n", -1isize));
}

#[test]
fn crawl_lists_admitted_elements() {
    let mut c = UiCrawl::new();
    assert!(c.admits(0));
    assert!(c.admits(20));
    assert!(!c.admits(21));
    c.visit(0, &props(50032, "Calculator"));
    c.visit(1, &props(50000, "7"));
    assert!(c.has_budget());
    assert_eq!(c.finish(), format!("{}wind Calculator +enabled +visible\n  btn 7 +enabled +visible\n", HEADER));
}

#[test]
fn crawl_stops_after_five_thousand_elements() {
    let mut c = UiCrawl::new();
    let mut listed = 0;
    while c.admits(3) {
        c.visit(3, &props(50020, "x"));
        listed += 1;
    }
    assert_eq!(listed, 5000);
    assert!(!c.has_budget());
    let text = c.finish();
    assert!(text.starts_with(HEADER));
    assert!(text.ends_with("      txt x +enabled +visible\n; ... truncated at 5000 elements\n"));
    assert_eq!(text.lines().count(), 2 + 5000 + 1);
}

#[test]
fn empty_crawl_is_the_header() {
    assert_eq!(UiCrawl::new().finish(), HEADER);
}

#[test]
fn window_line_as_documented() {
    let mut out = String::new();
    let mut p = props(50032, "Calculator");
    p.rect = Rect { left: 0, top: 0, right: 400, bottom: 600 };
    p.hwnd = 0x1000c;
    p.pid = 1234;
    push_element_line(&mut out, 0, &p);
    assert_eq!(out, "wind Calculator +enabled +visible 0,0,400,600 h=0x1000c p=1234\n");
    let mut out = String::new();
    let mut q = props(50004, "Search");
    q.offscreen = true;
    push_element_line(&mut out, 1, &q);
    assert_eq!(out, "  edit Search +enabled +off\n");
}

/// A tree for the walk: the name of an element and its children.
struct Node {
    name: String,
    children: Vec<Option<Node>>,
}

fn node(name: &str, children: Vec<Option<Node>>) -> Node {
    Node { name: name.to_string(), children }
}

/// Drives a walk over `root` as the application does; `None` children
/// cannot be got. Gives the map and the names read, in order.
fn drive(mut w: UiWalk, root: &Node) -> (String, Vec<String>) {
    let mut path: Vec<&Node> = vec![root];
    let mut read = Vec::new();
    let mut action = w.action();
    loop {
        action = match action {
            WalkAction::Read => {
                let n = *path.last().unwrap();
                read.push(n.name.clone());
                w.step(WalkEvent::Read { props: props(50000, &n.name), children: n.children.len() })
            }
            WalkAction::Open(i) => match &path.last().unwrap().children[i] {
                Some(c) => {
                    path.push(c);
                    w.step(WalkEvent::Opened)
                }
                None => w.step(WalkEvent::Missing),
            },
            WalkAction::Close => {
                path.pop();
                w.step(WalkEvent::Closed)
            }
            WalkAction::Done => break,
        };
    }
    assert!(path.is_empty());
    (w.finish(), read)
}

#[test]
fn walk_lists_the_tree_in_preorder() {
    let tree = node(
        "root",
        vec![Some(node("a", vec![Some(node("a1", vec![])), None, Some(node("a2", vec![]))])), Some(node("b", vec![]))],
    );
    let (map, read) = drive(OmniseyeEngine::new().dump_ui_tree(), &tree);
    assert_eq!(read, vec!["root", "a", "a1", "a2", "b"]);
    let line = |d: usize, n: &str| format!("{}btn {} +enabled +visible\n", "  ".repeat(d), n);
    assert_eq!(
        map,
        format!("{}{}{}{}{}{}", HEADER, line(0, "root"), line(1, "a"), line(2, "a1"), line(2, "a2"), line(1, "b"))
    );
}

#[test]
fn walk_stops_at_depth_twenty() {
    let mut tree = node("leaf", vec![]);
    for d in (0..25).rev() {
        tree = node(&format!("n{}", d), vec![Some(tree)]);
    }
    let (map, read) = drive(UiWalk::new(), &tree);
    assert_eq!(read.len(), 21);
    assert_eq!(read[20], "n20");
    assert_eq!(map.lines().count(), 2 + 21);
    assert!(map.ends_with(&format!("{}btn n20 +enabled +visible\n", "  ".repeat(20))));
}

#[test]
fn walk_stops_at_five_thousand_elements() {
    let kids: Vec<Option<Node>> = (0..6000).map(|i| Some(node(&format!("c{}", i), vec![]))).collect();
    let tree = node("root", kids);
    let (map, read) = drive(UiWalk::new(), &tree);
    assert_eq!(read.len(), 5000);
    assert_eq!(read[4999], "c4998");
    assert_eq!(map.lines().count(), 2 + 5000 + 1);
    assert!(map.ends_with("; ... truncated at 5000 elements\n"));
}

#[test]
fn events_that_do_not_answer_change_nothing() {
    let mut w = UiWalk::new();
    assert_eq!(w.step(WalkEvent::Closed), WalkAction::Read);
    assert_eq!(w.step(WalkEvent::Opened), WalkAction::Read);
    assert_eq!(w.step(WalkEvent::Read { props: props(50032, "desk"), children: 0 }), WalkAction::Close);
    assert_eq!(w.step(WalkEvent::Read { props: props(50032, "again"), children: 0 }), WalkAction::Close);
    assert_eq!(w.step(WalkEvent::Closed), WalkAction::Done);
    assert_eq!(w.finish(), format!("{}wind desk +enabled +visible\n", HEADER));
}
