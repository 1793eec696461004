//! The query transport's fixed request, and the payload that it answers
//! with.

use vstd::prelude::*;

verus! {

/// The endpoint that the transport posts to.
pub const API_URL: &'static str = "https://rickandmortyapi.com/graphql";

/// The body of the one request that the transport sends.
pub const QUERY: &'static str =
    "{\"operationName\":null,\"variables\":{},\"query\":\"{  character(id: 1) { id name status }}\"}";

/// One character of the show, as the endpoint describes it.
#[derive(Debug)]
pub struct Character {
    pub id: String,
    pub name: String,
    pub status: String,
}

/// A character with its fields as sequences of characters.
pub struct CharacterView {
    pub id: Seq<char>,
    pub name: Seq<char>,
    pub status: Seq<char>,
}

impl View for Character {
    type V = CharacterView;

    open spec fn view(&self) -> CharacterView {
        CharacterView { id: self.id@, name: self.name@, status: self.status@ }
    }
}

/// The `data` member of the answer to the character query.
#[derive(Debug)]
pub struct CharacterDataField {
    pub character: Character,
}

/// The `data` member by the view of its character.
pub struct CharacterDataFieldView {
    pub character: CharacterView,
}

impl View for CharacterDataField {
    type V = CharacterDataFieldView;

    open spec fn view(&self) -> CharacterDataFieldView {
        CharacterDataFieldView { character: self.character@ }
    }
}

/// The envelope of every answer: the payload under `data`.
#[derive(Debug)]
pub struct GraphQLResponse<T> {
    pub data: T,
}

impl<T: View> View for GraphQLResponse<T> {
    type V = GraphQLResponse<T::V>;

    open spec fn view(&self) -> GraphQLResponse<T::V> {
        GraphQLResponse { data: self.data@ }
    }
}

} // verus!
