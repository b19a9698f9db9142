//! One viewing session: the displayed document and the navigator over its
//! sections, loaded together and replaced together.
use vstd::prelude::*;

use crate::formatter::{portfolio_shown, FormattedContentSection, FormattedPortfolio, Formatter};
use crate::models::Portfolio;
use crate::navigation::{Navigation, HOME_TITLE};
use crate::parser::{portfolio_conforms, portfolio_decoded, ParseError, Parser};
use crate::yaml::yaml_document;

verus! {

/// The display state of a loaded document.
pub struct Session {
    pub portfolio: FormattedPortfolio,
    pub navigation: Navigation,
}

/// The navigation titles for a displayed document: "Home", then each
/// section's title in order.
pub open spec fn section_titles(p: FormattedPortfolio) -> Seq<Seq<char>> {
    seq![HOME_TITLE@] + p.content_sections@.map_values(|s: FormattedContentSection| s.title@)
}

impl Session {
    /// The session shows the document that the text holds, at `width`
    /// columns, and stands at "Home".
    pub open spec fn shows(&self, text: Seq<char>, width: nat) -> bool {
        &&& yaml_document(text) matches Some(doc)
        &&& exists|raw: Portfolio|
            portfolio_decoded(doc, raw) && portfolio_shown(raw, self.portfolio, width)
        &&& self.navigation.titles() == section_titles(self.portfolio)
        &&& self.navigation.current_index == 0
        &&& !self.navigation.should_quit
    }

    pub open spec fn wf(&self) -> bool {
        self.navigation.wf()
    }

    /// Parses, projects and builds navigation; the whole load fails when
    /// the text does not parse, and nothing partial is produced.
    pub fn load(text: &str, formatter: &Formatter) -> (r: Result<Session, ParseError>)
        ensures
            match yaml_document(text@) {
                None => r matches Err(ParseError::Syntax(_)),
                Some(doc) => if portfolio_conforms(doc) {
                    r matches Ok(s) && s.shows(text@, formatter.width()) && s.wf()
                } else {
                    r matches Err(e) && e is SchemaMismatch
                },
            },
    {
        match Parser::new().parse(text) {
            Ok(raw) => {
                let portfolio = formatter.format(&raw);
                let navigation = Navigation::for_portfolio(&portfolio);
                let session = Session { portfolio, navigation };
                proof {
                    let doc = yaml_document(text@)->Some_0;
                    assert(portfolio_decoded(doc, raw) && portfolio_shown(
                        raw,
                        session.portfolio,
                        formatter.width(),
                    ));
                }
                Ok(session)
            },
            Err(e) => Err(e),
        }
    }

    /// Replaces the whole session with the one the text holds; when the
    /// text does not load, the session stays exactly as it was.
    pub fn reload(&mut self, text: &str, formatter: &Formatter) -> (r: Result<(), ParseError>)
        ensures
            match r {
                Ok(()) => final(self).shows(text@, formatter.width()) && final(self).wf(),
                Err(_) => *final(self) == *old(self),
            },
            r is Ok <==> (yaml_document(text@) matches Some(doc) && portfolio_conforms(doc)),
    {
        match Session::load(text, formatter) {
            Ok(s) => {
                *self = s;
                Ok(())
            },
            Err(e) => Err(e),
        }
    }
}

} // verus!
