//! The layout of the tab in which a new plugin is developed: an editor on
//! the plugin's `src/main.rs`, a terminal, tab and status bars, and a
//! floating helper plugin that builds and reloads the plugin.
use vstd::prelude::*;

verus! {

/// The layout up to the working directory.
pub const LAYOUT_HEAD: &'static str = r#"
        layout {
            cwd ""#;

/// The layout between the working directory and the helper plugin's location.
pub const LAYOUT_MIDDLE: &'static str = r#""
            pane size=1 borderless=true {
                plugin location="tab-bar"
            }
            pane edit="src/main.rs" size="70%"
            pane size="30%"
            pane size=1 borderless=true {
                plugin location="status-bar"
            }
            floating_panes {
              pane {
                  plugin location=""#;

/// The layout after the helper plugin's location.
pub const LAYOUT_TAIL: &'static str = r#""
              }
            }

            swap_floating_layout name="enlarged" {
                floating_panes max_panes=10 {
                    pane { x "5%"; y 1; width "90%"; height "90%"; }
                    pane { x "5%"; y 2; width "90%"; height "90%"; }
                    pane { x "5%"; y 3; width "90%"; height "90%"; }
                    pane { x "5%"; y 4; width "90%"; height "90%"; }
                    pane { x "5%"; y 5; width "90%"; height "90%"; }
                    pane { x "5%"; y 6; width "90%"; height "90%"; }
                    pane { x "5%"; y 7; width "90%"; height "90%"; }
                    pane { x "5%"; y 8; width "90%"; height "90%"; }
                    pane { x "5%"; y 9; width "90%"; height "90%"; }
                    pane focus=true { x 10; y 10; width "90%"; height "90%"; }
                }
            }

            swap_floating_layout name="spread" {
                floating_panes max_panes=1 {
                    pane {y "50%"; x "50%"; }
                }
                floating_panes max_panes=2 {
                    pane { x "1%"; y "25%"; width "45%"; }
                    pane { x "50%"; y "25%"; width "45%"; }
                }
                floating_panes max_panes=3 {
                    pane focus=true { y "55%"; width "45%"; height "45%"; }
                    pane { x "1%"; y "1%"; width "45%"; }
                    pane { x "50%"; y "1%"; width "45%"; }
                }
                floating_panes max_panes=4 {
                    pane { x "1%"; y "55%"; width "45%"; height "45%"; }
                    pane focus=true { x "50%"; y "55%"; width "45%"; height "45%"; }
                    pane { x "1%"; y "1%"; width "45%"; height "45%"; }
                    pane { x "50%"; y "1%"; width "45%"; height "45%"; }
                }
            }



        }
    "#;

/// The layout text for a tab whose working directory is `plugin_folder`,
/// with the helper plugin loaded from `develop_rust_plugin_ur`.
pub open spec fn layout_text(plugin_folder: Seq<char>, develop_rust_plugin_ur: Seq<char>) -> Seq<char> {
    LAYOUT_HEAD@ + plugin_folder + LAYOUT_MIDDLE@ + develop_rust_plugin_ur + LAYOUT_TAIL@
}

/// Writes the KDL layout of the development tab: `plugin_folder` is its
/// working directory, and `develop_rust_plugin_ur` the location of the
/// helper plugin that floats over it. Both are put in verbatim.
pub fn workspace_layout(plugin_folder: &str, develop_rust_plugin_ur: &str) -> (layout: String)
    ensures
        layout@ == layout_text(plugin_folder@, develop_rust_plugin_ur@),
{
    let mut layout = String::from_str(LAYOUT_HEAD);
    layout.append(plugin_folder);
    layout.append(LAYOUT_MIDDLE);
    layout.append(develop_rust_plugin_ur);
    layout.append(LAYOUT_TAIL);
    layout
}

} // verus!
