# scene_flow

The rules of a trolley-problem game, verified with Verus: which scene follows which, how the
campaign graph is checked and followed, how dilemmas are built from their content files, how
dialogues are typed out, and how the system menu and its video settings behave.

## Layout

- `src/` — the verified library.
  - `ids`, `schema`, `validate`, `engine` — scene identifiers, the campaign graph, its
    validation, and its evaluation after each dilemma.
  - `scenes`, `runtime`, `states` — the scenes, the queue of scenes to play, and the game
    states each scene runs in.
  - `dilemma`, `decision`, `lever`, `stats`, `results`, `visuals` — dilemmas and their stages,
    the decision phase, the lever, the statistics kept of each dilemma and of the campaign,
    the results screen, and the scenery counts.
  - `dialogue`, `loading`, `ending` — the dialogue player, the loading bar, the ending scene.
  - `menus`, `menu_control`, `video`, `controls` — the system menu's pages and page stack,
    what its options, dialogs and keys decide, the video settings, and the top-level keys.
  - `visualize`, `viewer` — the Mermaid diagrams of the graph and the HTML viewer page.
  - `text` — character-level helpers (splitting, trimming, number reading, replacement).
- `tests/` — tests of the library on concrete values.
- `app/` — reading the JSON content files into the library's types, loading the campaign
  graph once, writing the viewer page to disk, and the floating-point presentation helpers.
