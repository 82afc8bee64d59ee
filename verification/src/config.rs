//! Where the service listens and where it keeps its activities.

use vstd::prelude::*;
use vstd::string::*;
use std::path::PathBuf;
use crate::text::decimal;
use crate::text::push_decimal;

verus! {

/// What a configuration is, as plain values.
pub struct ConfigModel {
    pub url: Seq<char>,
    pub port: u16,
    pub dbpath: PathBuf,
}

/// The address to serve on and the file of the activities.
#[derive(Debug)]
pub struct Config {
    url: String,
    port: u16,
    dbpath: PathBuf,
}

impl View for Config {
    type V = ConfigModel;

    closed spec fn view(&self) -> ConfigModel {
        ConfigModel { url: self.url@, port: self.port, dbpath: self.dbpath }
    }
}

impl Config {
    pub fn new(url: String, port: u16, dbpath: PathBuf) -> (config: Self)
        ensures
            config@ == (ConfigModel { url: url@, port, dbpath }),
    {
        Self { url, port, dbpath }
    }

    pub fn get_url(&self) -> (url: &String)
        ensures
            url@ == self@.url,
    {
        &self.url
    }

    pub fn get_port(&self) -> (port: &u16)
        ensures
            *port == self@.port,
    {
        &self.port
    }

    /// The address with its port: the url, a colon, and the port in decimal
    /// digits.
    pub fn get_url_w_port(&self) -> (address: String)
        ensures
            address@ == self@.url + seq![':'] + decimal(self@.port as nat),
    {
        let mut address = self.url.clone();
        address.push(':');
        push_decimal(&mut address, self.port as u64);
        address
    }

    pub fn get_dbpath(&self) -> (dbpath: &PathBuf)
        ensures
            *dbpath == self@.dbpath,
    {
        &self.dbpath
    }
}

} // verus!
