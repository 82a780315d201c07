//! Button variants and sizes and the style classes they select.
use vstd::prelude::*;

verus! {

/// The look of a button.
#[derive(Copy, Clone, PartialEq, Eq, Structural)]
#[non_exhaustive]
pub enum ButtonVariant {
    Primary,
    Secondary,
    Destructive,
    Outline,
    GhostVariant,
    Link,
}

impl Default for ButtonVariant {
    fn default() -> (r: Self)
        ensures
            r == ButtonVariant::Primary,
    {
        ButtonVariant::Primary
    }
}

pub open spec fn spec_variant_class(variant: ButtonVariant) -> Seq<char> {
    match variant {
        ButtonVariant::Primary => "primary"@,
        ButtonVariant::Secondary => "secondary"@,
        ButtonVariant::Destructive => "destructive"@,
        ButtonVariant::Outline => "outline"@,
        ButtonVariant::GhostVariant => "ghost"@,
        ButtonVariant::Link => "link"@,
    }
}

impl ButtonVariant {
    /// The style class of the variant.
    pub fn class(&self) -> (r: &'static str)
        ensures
            r@ == spec_variant_class(*self),
    {
        match self {
            ButtonVariant::Primary => "primary",
            ButtonVariant::Secondary => "secondary",
            ButtonVariant::Destructive => "destructive",
            ButtonVariant::Outline => "outline",
            ButtonVariant::GhostVariant => "ghost",
            ButtonVariant::Link => "link",
        }
    }
}

/// The size of a button.
#[derive(Copy, Clone, PartialEq, Eq, Structural)]
#[non_exhaustive]
pub enum ButtonSize {
    Xs,
    Sm,
    Default,
    Lg,
    Icon,
    IconXs,
    IconSm,
    IconLg,
}

impl Default for ButtonSize {
    fn default() -> (r: Self)
        ensures
            r == ButtonSize::Default,
    {
        ButtonSize::Default
    }
}

pub open spec fn spec_size_class(size: ButtonSize) -> Seq<char> {
    match size {
        ButtonSize::Xs => "xs"@,
        ButtonSize::Sm => "sm"@,
        ButtonSize::Default => "default"@,
        ButtonSize::Lg => "lg"@,
        ButtonSize::Icon => "icon"@,
        ButtonSize::IconXs => "icon-xs"@,
        ButtonSize::IconSm => "icon-sm"@,
        ButtonSize::IconLg => "icon-lg"@,
    }
}

impl ButtonSize {
    /// The style class of the size.
    pub fn class(&self) -> (r: &'static str)
        ensures
            r@ == spec_size_class(*self),
    {
        match self {
            ButtonSize::Xs => "xs",
            ButtonSize::Sm => "sm",
            ButtonSize::Default => "default",
            ButtonSize::Lg => "lg",
            ButtonSize::Icon => "icon",
            ButtonSize::IconXs => "icon-xs",
            ButtonSize::IconSm => "icon-sm",
            ButtonSize::IconLg => "icon-lg",
        }
    }
}

} // verus!
