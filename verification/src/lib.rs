#![allow(unused_imports)]

pub mod apps;
pub mod builder;
pub mod codecs;
pub mod command;
pub mod conditions;
pub mod data;
pub mod dial;
pub mod dialog;
pub mod dialogs;
pub mod dtmf;
pub mod events;
pub mod flow;
pub mod idset;
pub mod json;
pub mod legs;
pub mod media;
pub mod paths;
pub mod playback;
pub mod record;
pub mod relay;
pub mod route;
pub mod sdp;
pub mod session;
pub mod status;
pub mod table;
pub mod text;
pub mod timer;
pub mod track;
pub mod trunk;
pub mod uri;
pub mod video;
pub mod wav;
