# nokto_theme

Generates the "Nokto" dark colour theme for VS Code from the GitHub
"dark colorblind" palette and a base set of token colours.

- `src/` is the verified library (Verus):
  - `text` — substring search and equality on characters;
  - `order` — the key order of the colour table (code-point lexicographic);
  - `color_map` — a colour table kept sorted by key, with ordered-map semantics;
  - `color` — CSS colour normalisation to `#rrggbb` / `#rrggbbaa` (parsing by `csscolorparser`);
  - `scope`, `token` — token scopes, token kind names and the restyling of token colours;
  - `palette` — the palette's primitive colours;
  - `theme` — the theme's colour rules and the assembly of the theme.
- `app/main.rs` reads the two JSON inputs from `data/`, hands them to the
  library, and writes `themes/nokto-theme.json`.
