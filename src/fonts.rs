use vstd::prelude::*;

verus! {

/// The name under which the bundled font is registered.
pub const CUSTOM_FONT_NAME: &'static str = "my_font";

/// The font names that each text family tries, in order of preference.
#[derive(Clone, Debug)]
pub struct FontFamilies {
    pub proportional: Vec<String>,
    pub monospace: Vec<String>,
}

impl FontFamilies {
    /// Makes `name` the first choice for proportional text and the last resort for
    /// monospace text; the other names keep their order.
    pub fn install_font(&mut self, name: &str)
        requires
            old(self).proportional@.len() < usize::MAX,
            old(self).monospace@.len() < usize::MAX,
        ensures
            final(self).proportional@.len() == old(self).proportional@.len() + 1,
            final(self).proportional@[0]@ == name@,
            final(self).proportional@.drop_first() == old(self).proportional@,
            final(self).monospace@.len() == old(self).monospace@.len() + 1,
            final(self).monospace@.last()@ == name@,
            final(self).monospace@.drop_last() == old(self).monospace@,
    {
        let front = name.to_owned();
        let back = name.to_owned();
        self.proportional.insert(0, front);
        self.monospace.push(back);
        assert(self.proportional@.drop_first() =~= old(self).proportional@);
        assert(self.monospace@.drop_last() =~= old(self).monospace@);
    }
}

} // verus!
