//! Request preparation, tool routing and response accumulation for an agentic
//! Responses gateway.
pub mod accumulator;
pub mod accumulator_laws;
pub mod agents;
pub mod agents_laws;
pub mod codex;
pub mod convert;
pub mod convert_laws;
pub mod custom;
pub mod custom_input;
pub mod data;
pub mod declaration_laws;
pub mod definitions;
pub mod error;
pub mod events;
pub mod events_laws;
pub mod executors;
pub mod function_sse;
pub mod gateway;
pub mod gateway_laws;
pub mod handler;
pub mod ids;
pub mod in_flight;
pub mod item_laws;
pub mod items;
pub mod json;
pub mod loading_laws;
pub mod mcp;
pub mod mcp_laws;
pub mod names;
pub mod normalize;
pub mod ownership;
pub mod payload;
pub mod payload_laws;
pub mod pending_calls;
pub mod readiness;
pub mod registry;
pub mod registry_laws;
pub mod request;
pub mod request_laws;
pub mod search;
pub mod search_laws;
pub mod sse_laws;
pub mod tables;
pub mod text;
pub mod text_laws;
pub mod tool_search;
pub mod tool_search_laws;
pub mod tools;
pub mod upstream;
pub mod upstream_laws;
pub mod web_search;
pub mod web_search_laws;
pub mod wire;
pub mod wire_items;
pub mod wire_laws;
pub mod wire_payload;
pub mod wire_tools;
pub mod withholding;
