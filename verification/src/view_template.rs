use vstd::prelude::*;

verus! {

/// The page-level fields every rendered view carries.
pub struct ViewTemplateBase {
    pub title: String,
    pub description: String,
    pub language: String,
}

impl Default for ViewTemplateBase {
    fn default() -> (base: Self)
        ensures
            base.title@ == "Ntex web."@,
            base.description@ == "A simple web application based on Rust-Ntex."@,
            base.language@ == "en-US"@,
    {
        Self {
            title: "Ntex web.".to_owned(),
            description: "A simple web application based on Rust-Ntex.".to_owned(),
            language: "en-US".to_owned(),
        }
    }
}

/// Read and replace the page-level fields of a view.
pub trait ViewTemplate {
    fn title(&self) -> &str;

    fn description(&self) -> &str;

    fn language(&self) -> &str;

    fn set_title(&mut self, title: String) -> &mut Self;

    fn set_description(&mut self, description: String) -> &mut Self;

    fn set_language(&mut self, language: String) -> &mut Self;
}

impl ViewTemplate for ViewTemplateBase {
    fn title(&self) -> (title: &str)
        ensures
            title@ == self.title@,
    {
        self.title.as_str()
    }

    fn description(&self) -> (description: &str)
        ensures
            description@ == self.description@,
    {
        self.description.as_str()
    }

    fn language(&self) -> (language: &str)
        ensures
            language@ == self.language@,
    {
        self.language.as_str()
    }

    fn set_title(&mut self, title: String) -> (this: &mut Self)
        ensures
            this.title@ == title@,
            this.description@ == old(self).description@,
            this.language@ == old(self).language@,
            *final(self) == *final(this),
    {
        self.title = title;
        self
    }

    fn set_description(&mut self, description: String) -> (this: &mut Self)
        ensures
            this.title@ == old(self).title@,
            this.description@ == description@,
            this.language@ == old(self).language@,
            *final(self) == *final(this),
    {
        self.description = description;
        self
    }

    fn set_language(&mut self, language: String) -> (this: &mut Self)
        ensures
            this.title@ == old(self).title@,
            this.description@ == old(self).description@,
            this.language@ == language@,
            *final(self) == *final(this),
    {
        self.language = language;
        self
    }
}

} // verus!
