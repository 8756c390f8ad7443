//! Weather on a chart and on gauges, laid out in whole numbers.
//!
//! The library computes what a weather dashboard paints and what a status
//! bar prints; it paints and prints nothing itself. Its centre is an hourly
//! forecast chart: a temperature scale ([`scale`]), the columns of the samples
//! and the sample under a pointer ([`layout`]), a smooth curve through the
//! samples ([`spline`]), an animation clock that eases the chart from one
//! forecast into the next ([`anim`]), a cache for the painted background
//! ([`cache`]), the background and the moving layer as geometry
//! ([`backdrop`], [`overlay`]), and the chart as a widget that ties these
//! together ([`graph`]). Beside it stand the round gauges ([`gauges`]), the
//! sun's arc ([`astro`]), the readings and cards of the dashboard
//! ([`dashboard`]), the markup for the status bar ([`formatting`]), and the
//! rules around configuration and the weather service ([`config`],
//! [`service`]).
//!
//! Every fractional quantity is a whole number of thousandths (a pixel, a
//! degree of temperature or of arc, a probability) or of millionths (a
//! coordinate on the globe), so that every result is exact and every
//! rounding is said. Each function carries a contract that states its result.
//! The contracts are proved, but for those of a handful of calls into chrono
//! and the standard library, which say so.

pub mod anim;
pub mod astro;
pub mod backdrop;
pub mod cache;
pub mod clock;
pub mod config;
pub mod dashboard;
pub mod fixed;
pub mod formatting;
pub mod gauges;
pub mod graph;
pub mod layout;
pub mod overlay;
pub mod scale;
pub mod service;
pub mod spline;
pub mod text;
pub mod utils;
pub mod weather;
