use plugin_bridge::action::{
    parse_plugin_location, FloatingPaneLayout, Layout, LayoutTab, RunPluginLocation,
    SwapFloatingLayout, SwapTiledLayout, TiledPaneLayout,
};
use plugin_bridge::action::Action;
use plugin_bridge::dispatch::{encode_version_reply, host_version, open_layout_tabs, Effect};

#[test]
fn bundled_plugin_locations_are_read_from_zellij_urls() {
    let loc = parse_plugin_location(&"zellij:tab-bar".to_string(), &"/work".to_string());
    assert_eq!(loc, Some(RunPluginLocation::Zellij("tab-bar".to_string())));
}

#[test]
fn absolute_file_locations_keep_their_path() {
    let loc = parse_plugin_location(&"file:///tmp/x.wasm".to_string(), &"/work".to_string());
    assert_eq!(loc, Some(RunPluginLocation::File("/tmp/x.wasm".to_string())));
}

#[test]
fn relative_file_locations_are_resolved_against_cwd() {
    let loc = parse_plugin_location(&"file:plugins/x.wasm".to_string(), &"/work".to_string());
    assert_eq!(
        loc,
        Some(RunPluginLocation::File("/work/plugins/x.wasm".to_string()))
    );
}

#[test]
fn unknown_schemes_are_refused() {
    let loc = parse_plugin_location(&"https://example.org/x".to_string(), &"/work".to_string());
    assert_eq!(loc, None);
}

#[test]
fn version_reply_is_the_version_text() {
    assert_eq!(encode_version_reply(), host_version().as_bytes().to_vec());
}

fn layout_with_tabs(tabs: Vec<LayoutTab>) -> Layout {
    Layout {
        template: Some(TiledPaneLayout {
            source: "template".to_string(),
        }),
        template_floating: vec![],
        tabs,
        swap_tiled_layouts: vec![SwapTiledLayout {
            source: "swap-a".to_string(),
        }],
        swap_floating_layouts: vec![SwapFloatingLayout {
            source: "swap-b".to_string(),
        }],
    }
}

#[test]
fn a_layout_without_tabs_opens_one_tab_from_its_template() {
    let layout = layout_with_tabs(vec![]);
    let effects = open_layout_tabs(&layout);
    assert_eq!(effects.len(), 1);
    match &effects[0] {
        Effect::Forward(Action::NewTab(template, floating, swap_t, swap_f, name)) => {
            assert_eq!(
                template.as_ref().map(|t| t.source.clone()),
                Some("template".to_string())
            );
            assert!(floating.is_empty());
            assert_eq!(swap_t.as_ref().unwrap().len(), 1);
            assert_eq!(swap_f.as_ref().unwrap().len(), 1);
            assert!(name.is_none());
        },
        other => panic!("expected a tab action, got {:?}", other),
    }
}

#[test]
fn a_layout_with_tabs_opens_one_tab_each() {
    let layout = layout_with_tabs(vec![
        LayoutTab {
            name: Some("first".to_string()),
            tiled: TiledPaneLayout {
                source: "one".to_string(),
            },
            floating: vec![FloatingPaneLayout {
                source: "f".to_string(),
            }],
        },
        LayoutTab {
            name: None,
            tiled: TiledPaneLayout {
                source: "two".to_string(),
            },
            floating: vec![],
        },
    ]);
    let effects = open_layout_tabs(&layout);
    assert_eq!(effects.len(), 2);
    match &effects[0] {
        Effect::Forward(Action::NewTab(template, floating, swap_t, _, name)) => {
            assert_eq!(
                template.as_ref().map(|t| t.source.clone()),
                Some("one".to_string())
            );
            assert_eq!(floating.len(), 1);
            assert_eq!(swap_t.as_ref().unwrap()[0].source, "swap-a");
            assert_eq!(name.as_deref(), Some("first"));
        },
        other => panic!("expected a tab action, got {:?}", other),
    }
    match &effects[1] {
        Effect::Forward(Action::NewTab(template, _, _, _, name)) => {
            assert_eq!(
                template.as_ref().map(|t| t.source.clone()),
                Some("two".to_string())
            );
            assert!(name.is_none());
        },
        other => panic!("expected a tab action, got {:?}", other),
    }
}
