//! Loads a WSDL (Web Services Description Language) document from text,
//! parses it as XML, and derives a minimal structured model of the service
//! description: its WSDL version and a registry of declared data types.

pub mod wsdl;
