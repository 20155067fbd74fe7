//! Building blocks of a dark VS Code colour theme: CSS colour normalisation,
//! an ordered colour table, token scopes and the restyling of token colours.

pub mod text;
pub mod order;
pub mod color_map;
pub mod color;
pub mod scope;
pub mod token;
pub mod palette;
pub mod theme;
pub mod theme_table;
