//! The configuration document of the code generator and the sample
//! specification used for test generation.

use crate::cli::{Cli, ParameterError};
use vstd::prelude::*;

verus! {

/// Why a YAML document could not be produced.
#[derive(Debug)]
pub enum YAMLGenerationError {
    /// Writing the file failed.
    IOError(std::io::Error),
    /// Encoding the document failed.
    SerdeYAMLError(serde_yaml::Error),
    /// A required value is missing.
    ParameterError(ParameterError),
}

/// Options of the Rust generator of OpenAPI Generator, under the names the
/// generator reads.
#[derive(Debug, Clone)]
#[allow(non_snake_case)]
pub struct OpenAPIRustGeneratorConfigs {
    /// Use the best fitting integer type where a minimum or maximum is set.
    pub bestFitInt: bool,
    /// Suffix appended to all enum names.
    pub enumNameSuffix: String,
    /// Hide the generation timestamp in generated files.
    pub hideGenerationTimestamp: bool,
    /// HTTP library of the generated client, `hyper` or `reqwest`.
    pub library: String,
    /// Package name of the generated crate.
    pub packageName: String,
    /// Package version of the generated crate.
    pub packageVersion: String,
    /// Prefer unsigned integers where the minimum is not negative.
    pub preferUnsignedInt: bool,
    /// Generate asynchronous calls (`reqwest` only).
    pub supportAsync: bool,
    /// Support `reqwest-middleware` (`reqwest` only).
    pub supportMiddleware: bool,
    /// Return an enum over all successful response schemas (`reqwest` only).
    pub supportMultipleResponses: bool,
    /// Pass all parameters of an endpoint in one argument.
    pub useSingleRequestParameter: bool,
    /// Include support for AWS v4 signatures.
    pub withAWSV4Signature: bool,
}

/// What an [`OpenAPIRustGeneratorConfigs`] holds, as mathematical values.
#[allow(non_snake_case)]
pub struct OpenAPIRustGeneratorConfigsView {
    pub bestFitInt: bool,
    pub enumNameSuffix: Seq<char>,
    pub hideGenerationTimestamp: bool,
    pub library: Seq<char>,
    pub packageName: Seq<char>,
    pub packageVersion: Seq<char>,
    pub preferUnsignedInt: bool,
    pub supportAsync: bool,
    pub supportMiddleware: bool,
    pub supportMultipleResponses: bool,
    pub useSingleRequestParameter: bool,
    pub withAWSV4Signature: bool,
}

impl View for OpenAPIRustGeneratorConfigs {
    type V = OpenAPIRustGeneratorConfigsView;

    open spec fn view(&self) -> OpenAPIRustGeneratorConfigsView {
        OpenAPIRustGeneratorConfigsView {
            bestFitInt: self.bestFitInt,
            enumNameSuffix: self.enumNameSuffix@,
            hideGenerationTimestamp: self.hideGenerationTimestamp,
            library: self.library@,
            packageName: self.packageName@,
            packageVersion: self.packageVersion@,
            preferUnsignedInt: self.preferUnsignedInt,
            supportAsync: self.supportAsync,
            supportMiddleware: self.supportMiddleware,
            supportMultipleResponses: self.supportMultipleResponses,
            useSingleRequestParameter: self.useSingleRequestParameter,
            withAWSV4Signature: self.withAWSV4Signature,
        }
    }
}

/// Package name where none is given.
pub const DEFAULT_PACKAGE_NAME: &'static str = "openapi";

/// The generator's own defaults, for a package of the given name: an
/// asynchronous `reqwest` client at version 1.0.0 without a timestamp, every
/// other option off.
pub open spec fn default_configs(package_name: Seq<char>) -> OpenAPIRustGeneratorConfigsView {
    OpenAPIRustGeneratorConfigsView {
        bestFitInt: false,
        enumNameSuffix: Seq::empty(),
        hideGenerationTimestamp: true,
        library: "reqwest"@,
        packageName: package_name,
        packageVersion: "1.0.0"@,
        preferUnsignedInt: false,
        supportAsync: true,
        supportMiddleware: false,
        supportMultipleResponses: false,
        useSingleRequestParameter: false,
        withAWSV4Signature: false,
    }
}

impl Default for OpenAPIRustGeneratorConfigs {
    fn default() -> (configs: OpenAPIRustGeneratorConfigs)
        ensures
            configs@ == default_configs(DEFAULT_PACKAGE_NAME@),
    {
        OpenAPIRustGeneratorConfigs {
            bestFitInt: false,
            enumNameSuffix: String::new(),
            hideGenerationTimestamp: true,
            library: "reqwest".to_owned(),
            packageName: DEFAULT_PACKAGE_NAME.to_owned(),
            packageVersion: "1.0.0".to_owned(),
            preferUnsignedInt: false,
            supportAsync: true,
            supportMiddleware: false,
            supportMultipleResponses: false,
            useSingleRequestParameter: false,
            withAWSV4Signature: false,
        }
    }
}

impl OpenAPIRustGeneratorConfigs {
    /// The defaults, for the crate named on the command line.
    pub fn new(cli: &Cli) -> (configs: OpenAPIRustGeneratorConfigs)
        ensures
            configs@ == default_configs(cli.lib_name@),
    {
        let mut configs = OpenAPIRustGeneratorConfigs::default();
        configs.packageName = cli.get_lib_name();
        configs
    }
}

/// The sample specification written for test generation: a small pet store.
pub const PETSTORE_YAML: &'static str = r##"openapi: "3.0.0"
info:
  version: 1.0.0
  title: Swagger Petstore
  license:
    name: MIT
servers:
  - url: http://petstore.swagger.io/v1
paths:
  /pets:
    get:
      summary: List all pets
      operationId: listPets
      tags:
        - pets
      parameters:
        - name: limit
          in: query
          description: How many items to return at one time (max 100)
          required: false
          schema:
            type: integer
            format: int32
      responses:
        '200':
          description: A paged array of pets
          content:
            application/json:
              schema:
                $ref: "#/components/schemas/Pets"
        default:
          description: unexpected error
          content:
            application/json:
              schema:
                $ref: "#/components/schemas/Error"
    post:
      summary: Create a pet
      operationId: createPets
      tags:
        - pets
      responses:
        '201':
          description: Null response
        default:
          description: unexpected error
          content:
            application/json:
              schema:
                $ref: "#/components/schemas/Error"
  /pets/{petId}:
    get:
      summary: Info for a specific pet
      operationId: showPetById
      tags:
        - pets
      parameters:
        - name: petId
          in: path
          required: true
          description: The id of the pet to retrieve
          schema:
            type: string
      responses:
        '200':
          description: Expected response to a valid request
          content:
            application/json:
              schema:
                $ref: "#/components/schemas/Pet"
        default:
          description: unexpected error
          content:
            application/json:
              schema:
                $ref: "#/components/schemas/Error"
components:
  schemas:
    Pet:
      type: object
      required:
        - id
        - name
      properties:
        id:
          type: integer
          format: int64
        name:
          type: string
        tag:
          type: string
    Pets:
      type: array
      items:
        $ref: "#/components/schemas/Pet"
    Error:
      type: object
      required:
        - code
        - message
      properties:
        code:
          type: integer
          format: int32
        message:
          type: string
"##;

/// A text and the path of the file that is to hold it.
#[derive(Debug, Clone)]
pub struct TextFile {
    /// Where the text goes.
    pub path: String,
    /// The whole content of the file.
    pub contents: String,
}

/// The sample specification as the file to write for test generation: it
/// goes to the local specification path of the command line. Without such a
/// path there is nowhere to write it.
pub fn create_testing_spec_file(cli: &Cli) -> (r: Result<TextFile, YAMLGenerationError>)
    ensures
        match cli.inner_cli.local_api_spec_filepath_opt {
            Some(path) => r is Ok && r->Ok_0.path == path && r->Ok_0.contents@ == PETSTORE_YAML@,
            None => r == Err::<TextFile, YAMLGenerationError>(
                YAMLGenerationError::ParameterError(ParameterError::TestingYAMLSpecPathMissing),
            ),
        },
{
    match &cli.inner_cli.local_api_spec_filepath_opt {
        Some(path) => Ok(TextFile { path: path.clone(), contents: PETSTORE_YAML.to_owned() }),
        None => Err(YAMLGenerationError::ParameterError(ParameterError::TestingYAMLSpecPathMissing)),
    }
}

} // verus!
